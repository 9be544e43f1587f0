//! What holds of the library as a whole.
use vstd::prelude::*;
use vstd::utf8::encode_utf8;

use crate::backend::{BackendText, DatumError, Detoasted, Reply, Request};
use crate::bench::extra_text;
use crate::codec::{
    TEXT_DEPTH, binary_encoding, binary_sized, json_text, refusal, slice_value, turned_away,
};
use crate::json::{Json, JsonProgress, JsonResult, JsonState, json_step};
use crate::json_b::{
    BinaryStep, JsonB, JsonBProgress, JsonBResult, JsonBState, fallback_warning,
    jsonb_binary_step, jsonb_step, reads_text, released, stored_as_binary, stored_as_text,
    text_version,
};
use crate::json_string::{
    JsonString, JsonStringProgress, JsonStringResult, JsonStringState, json_string_step,
};
use crate::tree::{
    Tree, alike, binary_plain, differs_at, has_partner, is_partner, key_sorted, number_parts,
    number_text, numbers_free_of_nul, same_but_rounded, same_json, text_before, text_exact, tree,
    unsigned_part, whole_numbers,
};
use crate::varlena::{NewDatum, c_string, fits_varlena, plain_text_datum};

verus! {

/// A number as the parser keeps it holds no NUL character.
proof fn lemma_number_free_of_nul(n: Seq<char>)
    requires
        number_text(n),
    ensures
        !n.contains('\0'),
{
    let u = unsigned_part(n);
    let (w, f) = choose|w: int, f: int| number_parts(u, w, f);
    assert forall|i: int| 0 <= i < u.len() implies u[i] != '\0' by {
        if i < w {
            assert(u.take(w)[i] == u[i]);
        } else if i < f {
            let p = u.subrange(w, f);
            assert(p[i - w] == u[i]);
            if i > w {
                assert(p.skip(1)[i - w - 1] == u[i]);
            }
        } else {
            let p = u.skip(f);
            assert(p[i - f] == u[i]);
            if i > f + 1 {
                assert(p.skip(2)[i - f - 2] == u[i]);
            }
        }
    }
    if n.contains('\0') {
        let k = choose|k: int| 0 <= k < n.len() && n[k] == '\0';
        if u.len() < n.len() {
            assert(n[0] == '-');
            assert(u[k - 1] == n[k]);
        }
    }
}

/// A value that JSON text keeps exactly has no NUL character in its numbers, so its
/// text can always be handed to `jsonb_in`.
pub proof fn law_text_exact_is_storable(t: Tree, room: nat)
    requires
        text_exact(t, room),
    ensures
        numbers_free_of_nul(t),
    decreases t,
{
    match t {
        Tree::Number(n) => {
            lemma_number_free_of_nul(n);
        },
        Tree::Array(items) => {
            assert forall|i: int| 0 <= i < items.len() implies numbers_free_of_nul(
                #[trigger] items[i],
            ) by {
                law_text_exact_is_storable(items[i], (room - 1) as nat);
            }
        },
        Tree::Object(members) => {
            assert forall|i: int| 0 <= i < members.len() implies numbers_free_of_nul(
                (#[trigger] members[i]).1,
            ) by {
                law_text_exact_is_storable(members[i].1, (room - 1) as nat);
            }
        },
        _ => {},
    }
}

/// A `json` datum that [`Json::into_datum`] made is read back as the value that it
/// was made of.
pub proof fn law_json_reads_back(
    json: Json,
    stored: Option<NewDatum>,
    varlena: usize,
    d: Detoasted,
    r: JsonResult,
)
    requires
        text_exact(json@, TEXT_DEPTH as nat),
        plain_text_datum(json_text(json@), stored),
        stored matches Some(NewDatum::Text(text)) && d.data@ == encode_utf8(text@),
        json_step(JsonState::Detoasting { varlena }, Reply::Varlena(d), r),
    ensures
        r matches Ok(JsonProgress::Done(Some(read))) && read@ == json@,
{
    assert(tree(json.0) == json@);
}

/// A value that was read from a `json` datum and stored again is read once more as it
/// was.
pub proof fn law_json_read_is_stable(
    first: Detoasted,
    r1: JsonResult,
    json: Json,
    stored: Option<NewDatum>,
    second: Detoasted,
    r2: JsonResult,
    varlena: usize,
)
    requires
        json_step(JsonState::Detoasting { varlena }, Reply::Varlena(first), r1),
        r1 matches Ok(JsonProgress::Done(Some(read))) && read == json,
        plain_text_datum(json_text(json@), stored),
        stored matches Some(NewDatum::Text(text)) && second.data@ == encode_utf8(text@),
        json_step(JsonState::Detoasting { varlena }, Reply::Varlena(second), r2),
    ensures
        r2 matches Ok(JsonProgress::Done(Some(read))) && Some(read@) == slice_value(first.data@),
{
    law_json_reads_back(json, stored, varlena, second, r2);
}

/// A `json` datum that [`JsonString::into_datum`] made is read back as the text that
/// it was made of, whatever the text. A copy that the backend made is freed before
/// the text is given out, and nothing else is.
pub proof fn law_json_string_reads_back(
    string: JsonString,
    stored: Option<NewDatum>,
    varlena: usize,
    d: Detoasted,
    r: JsonStringResult,
    last: JsonStringResult,
)
    requires
        plain_text_datum(string@, stored),
        stored matches Some(NewDatum::Text(text)) && d.data@ == encode_utf8(text@),
        json_string_step(JsonStringState::Detoasting { varlena }, Reply::Varlena(d), r),
        r matches Ok(JsonStringProgress::Ask(_, s)) ==> json_string_step(s, Reply::Freed, last),
    ensures
        d.address == varlena ==> (r matches Ok(JsonStringProgress::Done(Some(read))) && read@
            == string@),
        d.address != varlena ==> {
            &&& r matches Ok(JsonStringProgress::Ask(ask, _))
            &&& ask == Request::Free(d.address)
            &&& last matches Ok(JsonStringProgress::Done(Some(read)))
            &&& read@ == string@
        },
{
    vstd::utf8::encode_utf8_valid_utf8(string@);
    vstd::utf8::encode_utf8_decode_utf8(string@);
}

/// The replies of a whole conversion to [`JsonB`], one after the other: the detoasted
/// varlena, its text, and that what was to be freed is freed.
pub open spec fn jsonb_conversion(
    varlena: usize,
    d: Detoasted,
    text: BackendText,
    r1: JsonBResult,
    r2: JsonBResult,
    r3: JsonBResult,
    r4: JsonBResult,
) -> bool {
    &&& jsonb_step(JsonBState::Detoasting { varlena }, Reply::Varlena(d), r1)
    &&& (r1 matches Ok(JsonBProgress::Ask(_, s)) ==> jsonb_step(s, Reply::Text(text), r2))
    &&& (r2 matches Ok(JsonBProgress::Ask(_, s)) ==> jsonb_step(s, Reply::Freed, r3))
    &&& (r3 matches Ok(JsonBProgress::Ask(_, s)) ==> jsonb_step(s, Reply::Freed, r4))
}

/// How a conversion ends: after the text is freed or, where the backend made a copy,
/// after that is freed too.
pub open spec fn conversion_end(
    varlena: usize,
    d: Detoasted,
    r3: JsonBResult,
    r4: JsonBResult,
) -> JsonBResult {
    if d.address == varlena {
        r3
    } else {
        r4
    }
}

/// A whole conversion of a datum to [`JsonB`]: the datum is printed, the text is
/// freed, a copy of the datum is freed if there is one, and the value is what the
/// text says. The text is freed once, and so is a copy; a datum that is no copy is not.
pub proof fn law_jsonb_conversion(
    varlena: usize,
    d: Detoasted,
    text: BackendText,
    r1: JsonBResult,
    r2: JsonBResult,
    r3: JsonBResult,
    r4: JsonBResult,
)
    requires
        text_version(text.bytes@) is Ok,
        jsonb_conversion(varlena, d, text, r1, r2, r3, r4),
    ensures
        r1 matches Ok(JsonBProgress::Ask(ask, _)) && ask == Request::JsonbOut(d.address),
        r2 matches Ok(JsonBProgress::Ask(ask, _)) && ask == Request::Free(text.address),
        d.address != varlena ==> (r3 matches Ok(JsonBProgress::Ask(ask, _)) && ask
            == Request::Free(d.address)),
        conversion_end(varlena, d, r3, r4) matches Ok(JsonBProgress::Done(Some(read))) && Ok::<
            _,
            DatumError,
        >(read@) == text_version(text.bytes@),
{
}

/// The backend keeps a JSON value: what it prints for a datum says the same as the text
/// that `jsonb_in` was handed, whatever the white space and the order of members.
pub open spec fn keeps_json(handed: Seq<u8>, printed: Seq<u8>) -> bool {
    text_version(handed) matches Ok(a) ==> (text_version(printed) matches Ok(b) && same_json(a, b))
}

/// A value is the same JSON as itself. So a backend that prints the very text that it
/// was handed [keeps](keeps_json) the value.
pub proof fn law_same_json_is_reflexive(t: Tree)
    ensures
        same_json(t, t),
    decreases t,
{
    match t {
        Tree::Array(items) => {
            assert forall|i: int| 0 <= i < items.len() implies alike(
                #[trigger] items[i],
                items[i],
                false,
            ) by {
                law_same_json_is_reflexive(items[i]);
            }
        },
        Tree::Object(members) => {
            assert forall|i: int| 0 <= i < members.len() implies has_partner(
                #[trigger] members[i],
                members,
                false,
            ) && is_partner(members, members[i], false) by {
                law_same_json_is_reflexive(members[i].1);
            }
        },
        _ => {},
    }
}

/// Where `a` is the same JSON as `b`, `b` is the same JSON as `a`.
pub proof fn law_same_json_is_symmetric(a: Tree, b: Tree)
    requires
        same_json(a, b),
    ensures
        same_json(b, a),
    decreases a,
{
    match (a, b) {
        (Tree::Array(xs), Tree::Array(ys)) => {
            assert forall|i: int| 0 <= i < ys.len() implies alike(
                #[trigger] ys[i],
                xs[i],
                false,
            ) by {
                assert(alike(xs[i], ys[i], false));
                law_same_json_is_symmetric(xs[i], ys[i]);
            }
        },
        (Tree::Object(xs), Tree::Object(ys)) => {
            assert forall|j: int| 0 <= j < ys.len() implies has_partner(
                #[trigger] ys[j],
                xs,
                false,
            ) by {
                let i = lemma_partner_before(xs, ys[j]);
                law_same_json_is_symmetric(xs[i].1, ys[j].1);
            }
            assert forall|i: int| 0 <= i < xs.len() implies is_partner(
                ys,
                #[trigger] xs[i],
                false,
            ) by {
                let j = lemma_partner_behind(xs[i], ys);
                law_same_json_is_symmetric(xs[i].1, ys[j].1);
            }
        },
        _ => {},
    }
}

/// What is the same JSON as `b`, which is the same JSON as `c`, is the same JSON as `c`.
pub proof fn law_same_json_is_transitive(a: Tree, b: Tree, c: Tree)
    requires
        same_json(a, b),
        same_json(b, c),
    ensures
        same_json(a, c),
    decreases a,
{
    match (a, b, c) {
        (Tree::Array(xs), Tree::Array(ys), Tree::Array(zs)) => {
            assert forall|i: int| 0 <= i < xs.len() implies alike(
                #[trigger] xs[i],
                zs[i],
                false,
            ) by {
                assert(alike(ys[i], zs[i], false));
                law_same_json_is_transitive(xs[i], ys[i], zs[i]);
            }
        },
        (Tree::Object(xs), Tree::Object(ys), Tree::Object(zs)) => {
            assert forall|i: int| 0 <= i < xs.len() implies has_partner(
                #[trigger] xs[i],
                zs,
                false,
            ) by {
                let j = lemma_partner_behind(xs[i], ys);
                let k = lemma_partner_behind(ys[j], zs);
                law_same_json_is_transitive(xs[i].1, ys[j].1, zs[k].1);
            }
            assert forall|k: int| 0 <= k < zs.len() implies is_partner(
                xs,
                #[trigger] zs[k],
                false,
            ) by {
                let j = lemma_partner_before(ys, zs[k]);
                let i = lemma_partner_before(xs, ys[j]);
                law_same_json_is_transitive(xs[i].1, ys[j].1, zs[k].1);
            }
        },
        _ => {},
    }
}

/// Where the partner of `x` stands.
proof fn lemma_partner_behind(x: (Seq<char>, Tree), ys: Seq<(Seq<char>, Tree)>) -> (j: int)
    requires
        has_partner(x, ys, false),
    ensures
        0 <= j < ys.len(),
        x.0 == ys[j].0,
        same_json(x.1, ys[j].1),
{
    choose|j: int| 0 <= j < ys.len() && x.0 == (#[trigger] ys[j]).0 && alike(x.1, ys[j].1, false)
}

/// Where the member stands whose partner `y` is.
proof fn lemma_partner_before(xs: Seq<(Seq<char>, Tree)>, y: (Seq<char>, Tree)) -> (i: int)
    requires
        is_partner(xs, y, false),
    ensures
        0 <= i < xs.len(),
        xs[i].0 == y.0,
        same_json(xs[i].1, y.1),
{
    choose|i: int| 0 <= i < xs.len() && (#[trigger] xs[i]).0 == y.0 && alike(xs[i].1, y.1, false)
}

/// The text that [`JsonB::into_datum`] hands to `jsonb_in` says what the value is.
proof fn lemma_handed_text(json: JsonB, stored: Result<NewDatum, DatumError>)
    requires
        text_exact(json@, TEXT_DEPTH as nat),
        stored_as_text(json, stored),
    ensures
        stored matches Ok(NewDatum::JsonbIn(handed)) && text_version(handed@.drop_last()) == Ok::<
            _,
            DatumError,
        >(json@),
{
    law_text_exact_is_storable(json@, TEXT_DEPTH as nat);
    let chars = json_text(json@);
    assert(c_string(chars).drop_last() =~= encode_utf8(chars));
    vstd::utf8::encode_utf8_valid_utf8(chars);
    vstd::utf8::encode_utf8_decode_utf8(chars);
}

/// Decoding undoes [`JsonB::into_datum`]: where the backend keeps JSON values, a whole
/// conversion of the datum gives the same JSON value that was stored.
pub proof fn law_jsonb_reads_back(
    json: JsonB,
    stored: Result<NewDatum, DatumError>,
    varlena: usize,
    d: Detoasted,
    text: BackendText,
    r1: JsonBResult,
    r2: JsonBResult,
    r3: JsonBResult,
    r4: JsonBResult,
)
    requires
        text_exact(json@, TEXT_DEPTH as nat),
        stored_as_text(json, stored),
        stored matches Ok(NewDatum::JsonbIn(handed)) ==> keeps_json(
            handed@.drop_last(),
            text.bytes@,
        ),
        jsonb_conversion(varlena, d, text, r1, r2, r3, r4),
    ensures
        stored is Ok,
        conversion_end(varlena, d, r3, r4) matches Ok(JsonBProgress::Done(Some(read)))
            && same_json(json@, read@),
{
    lemma_handed_text(json, stored);
    law_jsonb_conversion(varlena, d, text, r1, r2, r3, r4);
}

/// [`jsonb_from_text`](crate::json_b::jsonb_from_text) undoes `jsonb_in`: where the
/// backend keeps JSON values, what it prints is read as the same JSON value that was
/// stored.
pub proof fn law_text_version_reads_back(
    json: JsonB,
    stored: Result<NewDatum, DatumError>,
    printed: Seq<u8>,
    r: Result<serde_json::Value, DatumError>,
)
    requires
        text_exact(json@, TEXT_DEPTH as nat),
        stored_as_text(json, stored),
        stored matches Ok(NewDatum::JsonbIn(handed)) ==> keeps_json(handed@.drop_last(), printed),
        reads_text(printed, r),
    ensures
        stored is Ok,
        r matches Ok(value) && same_json(json@, tree(value)),
{
    lemma_handed_text(json, stored);
}

/// A value that was read from a `jsonb` can always be stored again, and where the
/// backend keeps JSON values, the same JSON value is read once more.
pub proof fn law_jsonb_read_is_stable(
    first: Seq<u8>,
    json: JsonB,
    stored: Result<NewDatum, DatumError>,
    second: Seq<u8>,
    again: Result<serde_json::Value, DatumError>,
)
    requires
        reads_text(first, Ok(json.0)),
        stored_as_text(json, stored),
        stored matches Ok(NewDatum::JsonbIn(handed)) ==> keeps_json(handed@.drop_last(), second),
        reads_text(second, again),
    ensures
        stored is Ok,
        again matches Ok(value) && same_json(json@, tree(value)),
{
    law_text_version_reads_back(json, stored, second, again);
}

/// A value that was read from a `jsonb` goes through
/// [`bench_jsonb_extra_text`](crate::bench::bench_jsonb_extra_text) unchanged.
pub proof fn law_extra_text_is_identity(
    varlena: usize,
    detoasted: usize,
    text: BackendText,
    r: JsonBResult,
    json: JsonB,
    out: Option<JsonB>,
)
    requires
        jsonb_step(JsonBState::Printing { varlena, detoasted }, Reply::Text(text), r),
        r matches Ok(JsonBProgress::Ask(_, JsonBState::FreeingText { value, .. })) && value == json,
        extra_text(json, out),
    ensures
        out matches Some(same) && same@ == json@,
{
}

/// A datum that [`JsonB::into_binary_datum`] made in the binary form is read back
/// without a warning and without asking for text, as the same JSON but for numbers that
/// are not whole or do not fit 64 bits, with the members of every object in the order of
/// their keys. A value without such numbers is read back as the same JSON, and unchanged
/// if it was in that order.
pub proof fn law_binary_datum_reads_back(
    json: JsonB,
    stored: Result<NewDatum, DatumError>,
    varlena: usize,
    d: Detoasted,
    r: BinaryStep,
)
    requires
        binary_plain(json@),
        binary_sized(json@),
        fits_varlena(binary_encoding(json@).len()),
        stored_as_binary(json, stored),
        stored matches Ok(NewDatum::Varlena(v)) ==> d.data@ == v.data@,
        jsonb_binary_step(varlena, d.address, d.data@, r),
    ensures
        r.warning is None,
        exists|value: JsonB|
            {
                &&& r.next == #[trigger] released(varlena, d.address, value)
                &&& same_but_rounded(json@, value@)
                &&& key_sorted(value@)
                &&& whole_numbers(json@) ==> same_json(json@, value@)
                &&& whole_numbers(json@) && key_sorted(json@) ==> value@ == json@
            },
{
    assert(tree(json.0) == json@);
    let value = choose|value: JsonB|
        {
            &&& r.next == #[trigger] released(varlena, d.address, value)
            &&& same_but_rounded(json@, value@)
            &&& key_sorted(value@)
            &&& whole_numbers(json@) ==> same_json(json@, value@)
        };
    if whole_numbers(json@) && key_sorted(json@) {
        law_sorted_json_is_unique(json@, value@);
    }
}

/// Data that the decoder of the binary form turns away by their header are warned of and
/// asked for as text.
pub proof fn law_foreign_data_are_printed(varlena: usize, d: Detoasted, r: BinaryStep)
    requires
        turned_away(d.data@),
        jsonb_binary_step(varlena, d.address, d.data@, r),
    ensures
        r.warning matches Some(warning) && warning@ == fallback_warning(refusal(d.data@)),
        r.next == JsonBProgress::Ask(
            Request::JsonbOut(d.address),
            JsonBState::Printing { varlena, detoasted: d.address },
        ),
{
}

/// No string comes before itself, and of two strings at most one comes before the
/// other.
proof fn lemma_before_asymmetric(a: Seq<char>, b: Seq<char>)
    requires
        text_before(a, b),
    ensures
        !text_before(b, a),
{
    let k = choose|k: int| #[trigger] differs_at(a, b, k);
    assert forall|m: int| !(#[trigger] differs_at(b, a, m)) by {
        if differs_at(b, a, m) {
            if k < m {
                assert(a.take(m)[k] == b.take(m)[k]);
            } else if m < k {
                assert(a.take(k)[m] == b.take(k)[m]);
            }
        }
    }
}

/// A strictly increasing map of the first `n` numbers into themselves moves none of
/// them.
proof fn lemma_increasing_is_identity(f: spec_fn(int) -> int, n: int, i: int)
    requires
        forall|k: int| 0 <= k < n ==> 0 <= #[trigger] f(k) < n,
        forall|k: int, m: int| 0 <= k < m < n ==> #[trigger] f(k) < #[trigger] f(m),
        0 <= i < n,
    ensures
        f(i) == i,
{
    lemma_increasing_from_below(f, n, i);
    lemma_increasing_from_above(f, n, i);
}

/// A strictly increasing map into the numbers from 0 on moves nothing down.
proof fn lemma_increasing_from_below(f: spec_fn(int) -> int, n: int, i: int)
    requires
        forall|k: int| 0 <= k < n ==> 0 <= #[trigger] f(k) < n,
        forall|k: int, m: int| 0 <= k < m < n ==> #[trigger] f(k) < #[trigger] f(m),
        0 <= i < n,
    ensures
        f(i) >= i,
    decreases i,
{
    if i > 0 {
        lemma_increasing_from_below(f, n, i - 1);
        assert(f(i - 1) < f(i));
    }
}

/// A strictly increasing map into the numbers below `n` moves nothing up.
proof fn lemma_increasing_from_above(f: spec_fn(int) -> int, n: int, i: int)
    requires
        forall|k: int| 0 <= k < n ==> 0 <= #[trigger] f(k) < n,
        forall|k: int, m: int| 0 <= k < m < n ==> #[trigger] f(k) < #[trigger] f(m),
        0 <= i < n,
    ensures
        f(i) <= i,
    decreases n - i,
{
    if i < n - 1 {
        lemma_increasing_from_above(f, n, i + 1);
        assert(f(i) < f(i + 1));
    }
}

/// The same JSON, with members in the order of their keys on both sides, is the same
/// value. So a value that is kept in that order comes back from the binary form
/// unchanged.
pub proof fn law_sorted_json_is_unique(a: Tree, b: Tree)
    requires
        same_json(a, b),
        key_sorted(a),
        key_sorted(b),
    ensures
        a == b,
    decreases a,
{
    match (a, b) {
        (Tree::Array(xs), Tree::Array(ys)) => {
            assert forall|i: int| 0 <= i < xs.len() implies xs[i] == ys[i] by {
                law_sorted_json_is_unique(xs[i], ys[i]);
            }
            assert(xs =~= ys);
        },
        (Tree::Object(xs), Tree::Object(ys)) => {
            let n = xs.len() as int;
            let partner = |i: int, j: int|
                0 <= j < n && xs[i].0 == ys[j].0 && same_json(xs[i].1, ys[j].1);
            let f = |i: int| choose|j: int| #[trigger] partner(i, j);
            assert forall|i: int| 0 <= i < n implies partner(i, #[trigger] f(i)) by {
                assert(has_partner(xs[i], ys, false));
                let j = lemma_partner_behind(xs[i], ys);
                assert(partner(i, j));
            }
            assert forall|k: int, m: int| 0 <= k < m < n implies #[trigger] f(k) < #[trigger] f(
                m,
            ) by {
                assert(partner(k, f(k)) && partner(m, f(m)));
                assert(text_before(xs[k].0, xs[m].0));
                lemma_before_asymmetric(xs[k].0, xs[m].0);
                if f(m) < f(k) {
                    assert(text_before(ys[f(m)].0, ys[f(k)].0));
                }
            }
            assert forall|i: int| 0 <= i < n implies xs[i] == ys[i] by {
                lemma_increasing_is_identity(f, n, i);
                assert(partner(i, f(i)));
                law_sorted_json_is_unique(xs[i].1, ys[i].1);
            }
            assert(xs =~= ys);
        },
        _ => {},
    }
}

} // verus!
