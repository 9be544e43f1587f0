//! What each operation comes to, said of its calls: of what goes in, of what comes out,
//! and of what the JSON parsers, the printer and the binary coder give on their own.
//!
//! `call_ensures(f, (a, b), r)` says that `r` is what a call `f(a, b)` may return.
use vstd::prelude::*;
use vstd::utf8::{decode_utf8, encode_utf8, valid_utf8};

use crate::backend::{BackendText, DatumError, Detoasted, Reply, Request};
use crate::bench::{bench_jsonb_extra_text, bench_jsonb_standard};
use crate::codec::{
    TEXT_DEPTH, binary_encoding, binary_readable, binary_sized, binary_value, decode_binary,
    decode_slice, decode_text, decode_utf8_text, encode_binary, encode_text, encoded_sizes,
    is_turned_away, json_text, roundtrip_binary, roundtrip_text, slice_value, string_value,
    text_value, try_roundtrip_binary,
};
use crate::json::{Json, JsonProgress, JsonResult, JsonState};
use crate::json_b::{
    BinaryStep, JsonB, JsonBProgress, JsonBResult, JsonBState, jsonb_from_text, text_datum,
};
use crate::json_string::{JsonString, JsonStringProgress, JsonStringResult, JsonStringState};
use crate::laws::law_text_exact_is_storable;
use crate::make::{
    Members, bool_value, distinct_keys, number_value, repeated_value, string_pair,
};
use crate::payload::{large_jsonb, medium_jsonb};
use crate::tree::{
    Tree, alike, binary_plain, has_partner, key_sorted, number_text, same_but_rounded, same_json,
    text_exact, tree, whole_numbers,
};
use crate::varlena::{
    NewDatum, Varlena, jsonb_from_binary, lemma_utf8_holds_zero, new_text_datum, to_c_string,
};

verus! {

// ---- reading `json` ----

/// A `json` datum that is not SQL NULL is detoasted, and its data are given to the JSON
/// parser as they are, compact or not: the value is what the parser reads, and data that
/// it does not accept are an error. SQL NULL alone becomes `None`.
pub proof fn law_json_is_what_the_parser_reads(
    datum: usize,
    is_null: bool,
    typoid: u32,
    start: JsonProgress,
    d: Detoasted,
    r: JsonResult,
)
    requires
        call_ensures(Json::from_polymorphic_datum, (datum, is_null, typoid), start),
        start matches JsonProgress::Ask(_, s) ==> call_ensures(
            JsonState::resume,
            (s, Reply::Varlena(d)),
            r,
        ),
    ensures
        is_null <==> start matches JsonProgress::Done(None),
        !is_null ==> {
            &&& start matches JsonProgress::Ask(ask, _)
            &&& ask == Request::Detoast(datum)
            &&& (slice_value(d.data@) matches Some(t) ==> {
                &&& r matches Ok(JsonProgress::Done(Some(read)))
                &&& tree(read.0) == t
            })
            &&& (slice_value(d.data@) is None ==> {
                &&& r matches Err(e)
                &&& e == DatumError::NotJson
            })
        },
{
}

/// No reply ends a conversion to [`Json`] as SQL NULL or asks for more, and only a
/// varlena answers its request.
pub proof fn law_json_is_never_lost(s: JsonState, reply: Reply, r: JsonResult)
    requires
        call_ensures(JsonState::resume, (s, reply), r),
    ensures
        r matches Ok(p) ==> (p matches JsonProgress::Done(Some(_))),
        reply !is Varlena <==> (r matches Err(e) && e == DatumError::UnexpectedReply),
{
}

/// What the parser gave is what the conversion to [`Json`] gives.
pub proof fn law_parsed_json_is_given_out(value: Option<serde_json::Value>, r: JsonResult)
    requires
        call_ensures(JsonState::parsed, (value,), r),
    ensures
        value matches Some(v) ==> (r matches Ok(JsonProgress::Done(Some(read))) && read.0 == v),
        value is None ==> (r matches Err(e) && e == DatumError::NotJson),
{
}

// ---- reading `json` as text ----

/// A `json` datum that is not SQL NULL is detoasted, and a text is given out whose UTF-8
/// bytes are the data; a copy is freed first, with nothing else. Data that are no UTF-8
/// are an error. SQL NULL alone becomes `None`.
pub proof fn law_json_string_holds_the_data(
    datum: usize,
    is_null: bool,
    typoid: u32,
    start: JsonStringProgress,
    d: Detoasted,
    r: JsonStringResult,
    last: JsonStringResult,
)
    requires
        call_ensures(JsonString::from_polymorphic_datum, (datum, is_null, typoid), start),
        start matches JsonStringProgress::Ask(_, s) ==> call_ensures(
            JsonStringState::resume,
            (s, Reply::Varlena(d)),
            r,
        ),
        r matches Ok(JsonStringProgress::Ask(_, s)) ==> call_ensures(
            JsonStringState::resume,
            (s, Reply::Freed),
            last,
        ),
    ensures
        is_null <==> start matches JsonStringProgress::Done(None),
        !is_null ==> {
            &&& start matches JsonStringProgress::Ask(ask, _)
            &&& ask == Request::DetoastPacked(datum)
            &&& (!valid_utf8(d.data@) ==> (r matches Err(e) && e == DatumError::NotUtf8))
            &&& (valid_utf8(d.data@) && d.address == datum ==> {
                &&& r matches Ok(JsonStringProgress::Done(Some(read)))
                &&& encode_utf8(read.0@) == d.data@
            })
            &&& (valid_utf8(d.data@) && d.address != datum ==> {
                &&& r matches Ok(JsonStringProgress::Ask(free, _))
                &&& free == Request::Free(d.address)
                &&& last matches Ok(JsonStringProgress::Done(Some(read)))
                &&& encode_utf8(read.0@) == d.data@
            })
        },
{
    if valid_utf8(d.data@) {
        vstd::utf8::decode_utf8_encode_utf8(d.data@);
    }
}

/// No reply ends a conversion to [`JsonString`] as SQL NULL, and a reply that does not
/// answer the request is an error. A text that waits for its copy to be freed is given
/// out as it is.
pub proof fn law_json_string_is_never_lost(s: JsonStringState, reply: Reply, r: JsonStringResult)
    requires
        call_ensures(JsonStringState::resume, (s, reply), r),
    ensures
        r matches Ok(JsonStringProgress::Done(end)) ==> end is Some,
        !(s is Detoasting && reply is Varlena || s is FreeingCopy && reply is Freed) <==> (
        r matches Err(e) && e == DatumError::UnexpectedReply),
        reply is Freed ==> (s matches JsonStringState::FreeingCopy { value } ==> (
        r matches Ok(JsonStringProgress::Done(Some(read))) && read == value)),
{
}

// ---- reading `jsonb` ----

/// The text version of a `jsonb` is given to the JSON parser as it is, whatever its white
/// space: the value is what the parser reads. Bytes that are no UTF-8, and text that the
/// parser does not accept, are errors.
pub proof fn law_text_version_is_what_the_parser_reads(
    bytes: &[u8],
    r: Result<serde_json::Value, DatumError>,
)
    requires
        call_ensures(jsonb_from_text, (bytes,), r),
    ensures
        !valid_utf8(bytes@) ==> (r matches Err(e) && e == DatumError::TextNotUtf8),
        valid_utf8(bytes@) ==> match text_value(decode_utf8(bytes@)) {
            Some(t) => r matches Ok(value) && tree(value) == t,
            None => r matches Err(e) && e == DatumError::TextNotJson,
        },
{
}

/// Two texts that the parser reads alike are read as one value, however they are laid
/// out.
pub proof fn law_layout_does_not_matter(
    a: &[u8],
    b: &[u8],
    ra: Result<serde_json::Value, DatumError>,
    rb: Result<serde_json::Value, DatumError>,
)
    requires
        valid_utf8(a@),
        valid_utf8(b@),
        text_value(decode_utf8(a@)) == text_value(decode_utf8(b@)),
        call_ensures(jsonb_from_text, (a,), ra),
        call_ensures(jsonb_from_text, (b,), rb),
    ensures
        ra is Ok <==> rb is Ok,
        ra is Ok ==> tree(ra->Ok_0) == tree(rb->Ok_0),
{
    law_text_version_is_what_the_parser_reads(a, ra);
    law_text_version_is_what_the_parser_reads(b, rb);
}

/// A `jsonb` datum that is not SQL NULL is detoasted and printed; the text is freed, then
/// a copy, and nothing else; and the value is what the JSON parser reads from the text.
/// SQL NULL alone becomes `None`.
pub proof fn law_jsonb_is_what_the_parser_reads(
    datum: usize,
    is_null: bool,
    typoid: u32,
    start: JsonBProgress,
    d: Detoasted,
    text: BackendText,
    r1: JsonBResult,
    r2: JsonBResult,
    r3: JsonBResult,
    r4: JsonBResult,
)
    requires
        call_ensures(JsonB::from_polymorphic_datum, (datum, is_null, typoid), start),
        start matches JsonBProgress::Ask(_, s) ==> call_ensures(
            JsonBState::resume,
            (s, Reply::Varlena(d)),
            r1,
        ),
        r1 matches Ok(JsonBProgress::Ask(_, s)) ==> call_ensures(
            JsonBState::resume,
            (s, Reply::Text(text)),
            r2,
        ),
        r2 matches Ok(JsonBProgress::Ask(_, s)) ==> call_ensures(
            JsonBState::resume,
            (s, Reply::Freed),
            r3,
        ),
        r3 matches Ok(JsonBProgress::Ask(_, s)) ==> call_ensures(
            JsonBState::resume,
            (s, Reply::Freed),
            r4,
        ),
    ensures
        is_null <==> start matches JsonBProgress::Done(None),
        !is_null ==> {
            &&& start matches JsonBProgress::Ask(ask, _)
            &&& ask == Request::DetoastPacked(datum)
            &&& r1 matches Ok(JsonBProgress::Ask(out, _))
            &&& out == Request::JsonbOut(d.address)
        },
        !is_null && !valid_utf8(text.bytes@) ==> (r2 matches Err(e) && e
            == DatumError::TextNotUtf8),
        !is_null && valid_utf8(text.bytes@) && text_value(decode_utf8(text.bytes@)) is None ==> (
        r2 matches Err(e) && e == DatumError::TextNotJson),
        !is_null && valid_utf8(text.bytes@) ==> (text_value(decode_utf8(text.bytes@)) matches Some(
            t,
        ) ==> {
            &&& r2 matches Ok(JsonBProgress::Ask(free, _))
            &&& free == Request::Free(text.address)
            &&& (d.address == datum ==> {
                &&& r3 matches Ok(JsonBProgress::Done(Some(read)))
                &&& tree(read.0) == t
            })
            &&& (d.address != datum ==> {
                &&& r3 matches Ok(JsonBProgress::Ask(copy, _))
                &&& copy == Request::Free(d.address)
                &&& r4 matches Ok(JsonBProgress::Done(Some(read)))
                &&& tree(read.0) == t
            })
        }),
{
}

/// No reply ends a conversion to [`JsonB`] as SQL NULL. A reply that does not answer the
/// request is an error, and so is it where `jsonb_out` gave no text. A value that was read
/// is given out as it is.
pub proof fn law_jsonb_is_never_lost(s: JsonBState, reply: Reply, r: JsonBResult)
    requires
        call_ensures(JsonBState::resume, (s, reply), r),
    ensures
        r matches Ok(JsonBProgress::Done(end)) ==> end is Some,
        !(s is Detoasting && reply is Varlena || s is Printing && (reply is Text || reply is Null)
            || (s is FreeingText || s is FreeingCopy) && reply is Freed) <==> (r matches Err(e) && e
            == DatumError::UnexpectedReply),
        s is Printing && reply is Null ==> (r matches Err(e) && e == DatumError::NotJsonb),
        reply is Freed ==> (s matches JsonBState::FreeingCopy { value } ==> (
        r matches Ok(JsonBProgress::Done(Some(read))) && read == value)),
        reply is Freed ==> (s matches JsonBState::FreeingText { varlena, detoasted, value } ==> {
            &&& detoasted == varlena ==> (r matches Ok(JsonBProgress::Done(Some(read))) && read
                == value)
            &&& detoasted != varlena ==> {
                &&& r matches Ok(JsonBProgress::Ask(ask, next))
                &&& ask == Request::Free(detoasted)
                &&& next matches JsonBState::FreeingCopy { value: kept }
                &&& kept == value
            }
        }),
{
}

/// A value that was read from a text is kept while the text is freed; an error is handed
/// on.
pub proof fn law_read_text_is_freed(
    varlena: usize,
    detoasted: usize,
    text: usize,
    value: Result<serde_json::Value, DatumError>,
    r: JsonBResult,
)
    requires
        call_ensures(JsonBState::text_read, (varlena, detoasted, text, value), r),
    ensures
        value matches Ok(v) ==> {
            &&& r matches Ok(JsonBProgress::Ask(ask, next))
            &&& ask == Request::Free(text)
            &&& next matches JsonBState::FreeingText { varlena: a, detoasted: b, value: kept }
            &&& a == varlena
            &&& b == detoasted
            &&& kept.0 == v
        },
        value matches Err(e) ==> (r matches Err(f) && f == e),
{
}

// ---- reading `jsonb` in the binary form ----

/// What follows on a try to read data in the binary form: a value is given out, at once
/// where the datum is the caller's own and after the copy is freed where it is one;
/// without a value there is a warning that ends with the error, and the text is asked
/// for.
pub proof fn law_tried_data_are_read_or_printed(
    varlena: usize,
    detoasted: usize,
    value: Result<serde_json::Value, String>,
    r: BinaryStep,
    last: JsonBResult,
)
    requires
        call_ensures(JsonBState::binary_read, (varlena, detoasted, value), r),
        r.next matches JsonBProgress::Ask(_, s) ==> call_ensures(
            JsonBState::resume,
            (s, Reply::Freed),
            last,
        ),
    ensures
        value matches Ok(v) ==> {
            &&& r.warning is None
            &&& detoasted == varlena ==> (r.next matches JsonBProgress::Done(Some(read)) && read.0
                == v)
            &&& detoasted != varlena ==> {
                &&& r.next matches JsonBProgress::Ask(ask, _)
                &&& ask == Request::Free(detoasted)
                &&& last matches Ok(JsonBProgress::Done(Some(read)))
                &&& read.0 == v
            }
        },
        value matches Err(e) ==> {
            &&& r.warning matches Some(warning)
            &&& warning@ == "jsonb binary parse failed, falling back to text parse: "@ + e@
            &&& r.next matches JsonBProgress::Ask(ask, next)
            &&& next matches JsonBState::Printing { varlena: a, detoasted: b }
            &&& ask == Request::JsonbOut(detoasted)
            &&& a == varlena
            &&& b == detoasted
        },
{
}

/// Data are given to the decoder of the binary form. What it reads is given out, at once
/// or after a copy is freed, and never as SQL NULL. What it refuses is warned of, with its
/// error, and asked for as text.
pub proof fn law_binary_data_are_what_the_decoder_reads(
    varlena: usize,
    d: Detoasted,
    r: BinaryStep,
    last: JsonBResult,
)
    requires
        binary_readable(d.data@),
        call_ensures(JsonBState::resume_binary, (varlena, d), r),
        r.next matches JsonBProgress::Ask(_, s) ==> call_ensures(
            JsonBState::resume,
            (s, Reply::Freed),
            last,
        ),
    ensures
        r.next matches JsonBProgress::Done(end) ==> end is Some,
        binary_value(d.data@) matches Ok(t) ==> {
            &&& r.warning is None
            &&& d.address == varlena ==> (r.next matches JsonBProgress::Done(Some(read)) && tree(
                read.0,
            ) == t)
            &&& d.address != varlena ==> {
                &&& r.next matches JsonBProgress::Ask(ask, _)
                &&& ask == Request::Free(d.address)
                &&& last matches Ok(JsonBProgress::Done(Some(read)))
                &&& tree(read.0) == t
            }
        },
        binary_value(d.data@) matches Err(e) ==> {
            &&& r.warning matches Some(warning)
            &&& warning@ == "jsonb binary parse failed, falling back to text parse: "@ + e
            &&& r.next matches JsonBProgress::Ask(ask, next)
            &&& next matches JsonBState::Printing { varlena: a, detoasted: b }
            &&& ask == Request::JsonbOut(d.address)
            &&& a == varlena
            &&& b == d.address
        },
{
}

/// Reading undoes [`JsonB::into_binary_datum`]. Where the binary form of a value fits a
/// varlena, the datum is one, its header counts itself and all of the data, and what the
/// header announces after itself is the whole binary form. Read back from there, the value
/// is the one that was stored, but for numbers that are not whole or do not fit 64 bits;
/// it is given out at once where the datum is the caller's own, and after the copy is
/// freed where it is one.
pub proof fn law_binary_datum_is_read_by_its_header(
    json: JsonB,
    stored: Result<NewDatum, DatumError>,
    varlena: usize,
    d: Detoasted,
    r: BinaryStep,
    last: JsonBResult,
)
    requires
        4 + binary_encoding(tree(json.0)).len() < 0x3fff_ffff,
        binary_plain(tree(json.0)),
        binary_sized(tree(json.0)),
        call_ensures(JsonB::into_binary_datum, (json,), stored),
        stored matches Ok(NewDatum::Varlena(v)) ==> d.data@ == v.data@.take(v.size - 4),
        call_ensures(JsonBState::resume_binary, (varlena, d), r),
        r.next matches JsonBProgress::Ask(_, s) ==> call_ensures(
            JsonBState::resume,
            (s, Reply::Freed),
            last,
        ),
    ensures
        stored matches Ok(NewDatum::Varlena(v)) && v.size == 4 + v.data@.len(),
        d.data@ == binary_encoding(tree(json.0)),
        r.warning is None,
        d.address == varlena ==> {
            &&& r.next matches JsonBProgress::Done(Some(read))
            &&& same_but_rounded(tree(json.0), tree(read.0))
            &&& whole_numbers(tree(json.0)) ==> same_json(tree(json.0), tree(read.0))
            &&& key_sorted(tree(read.0))
        },
        d.address != varlena ==> {
            &&& r.next matches JsonBProgress::Ask(ask, _)
            &&& ask == Request::Free(d.address)
            &&& last matches Ok(JsonBProgress::Done(Some(read)))
            &&& same_but_rounded(tree(json.0), tree(read.0))
            &&& whole_numbers(tree(json.0)) ==> same_json(tree(json.0), tree(read.0))
            &&& key_sorted(tree(read.0))
        },
{
    law_new_binary_datum(json, stored);
    if let Ok(NewDatum::Varlena(v)) = stored {
        assert(v.data@.take(v.size - 4) =~= v.data@);
    }
    law_binary_data_are_what_the_decoder_reads(varlena, d, r, last);
}

/// Bytes that are too short for a header, or whose header has no tag of the binary form,
/// are recognised as foreign; so are bytes that end before the entries that their header
/// announces, unless those are 2^27 or more. What is foreign stays so when more is cut off
/// its end.
pub proof fn law_foreign_data_are_recognised(b: &[u8], cut: &[u8], r: bool, rcut: bool)
    requires
        call_ensures(is_turned_away, (b,), r),
        call_ensures(is_turned_away, (cut,), rcut),
        cut@.len() <= b@.len(),
        cut@ == b@.take(cut@.len() as int),
    ensures
        b@.len() < 4 ==> r,
        b@.len() >= 4 && !(0x20 <= b@[0] < 0x60 || 0x80 <= b@[0] < 0xa0) ==> r,
        4 <= b@.len() < 8 && 0x20 <= b@[0] < 0x28 ==> r,
        b@.len() >= 4 && 0x40 <= b@[0] < 0x48 && b@.len() < 4 + 8 * ((b@[0] - 0x40) * 0x100_0000
            + b@[1] * 0x1_0000 + b@[2] * 0x100 + b@[3]) ==> r,
        b@.len() >= 4 && 0x80 <= b@[0] < 0x88 && b@.len() < 4 + 4 * ((b@[0] - 0x80) * 0x100_0000
            + b@[1] * 0x1_0000 + b@[2] * 0x100 + b@[3]) ==> r,
        b@.len() >= 4 && (0x28 <= b@[0] < 0x40 || 0x48 <= b@[0] < 0x60 || 0x88 <= b@[0] < 0xa0)
            ==> !r,
        b@.len() >= 8 && 0x20 <= b@[0] < 0x40 ==> !r,
        b@.len() >= 4 && 0x40 <= b@[0] < 0x60 && b@.len() >= 4 + 8 * ((b@[0] - 0x40) * 0x100_0000
            + b@[1] * 0x1_0000 + b@[2] * 0x100 + b@[3]) ==> !r,
        b@.len() >= 4 && 0x80 <= b@[0] < 0xa0 && b@.len() >= 4 + 4 * ((b@[0] - 0x80) * 0x100_0000
            + b@[1] * 0x1_0000 + b@[2] * 0x100 + b@[3]) ==> !r,
        r ==> rcut,
{
}

/// The binary form of a plain value is never taken for foreign.
pub proof fn law_own_data_are_not_foreign(
    v: serde_json::Value,
    bytes: Vec<u8>,
    b: &[u8],
    read: Result<serde_json::Value, String>,
    foreign: bool,
)
    requires
        binary_plain(tree(v)),
        binary_sized(tree(v)),
        call_ensures(encode_binary, (&v,), bytes),
        b@ == bytes@,
        call_ensures(decode_binary, (b,), read),
        call_ensures(is_turned_away, (b,), foreign),
    ensures
        !foreign,
{
}

/// Data of unknown origin are gone on with exactly where they are recognised as foreign:
/// there is a warning, and the text is asked for.
pub proof fn law_foreign_data_are_warned_of(
    varlena: usize,
    d: Detoasted,
    data: &[u8],
    foreign: bool,
    r: Option<BinaryStep>,
)
    requires
        data@ == d.data@,
        call_ensures(is_turned_away, (data,), foreign),
        call_ensures(JsonBState::resume_foreign, (varlena, d), r),
    ensures
        r is Some <==> foreign,
        r matches Some(step) ==> {
            &&& step.warning matches Some(warning)
            &&& binary_value(d.data@) matches Err(e)
            &&& warning@ == "jsonb binary parse failed, falling back to text parse: "@ + e
            &&& e == if d.data@.len() < 4 || 0x20 <= d.data@[0] < 0x60 || 0x80 <= d.data@[0]
                < 0xa0 {
                "InvalidEOF"@
            } else {
                "InvalidJsonb"@
            }
            &&& step.next matches JsonBProgress::Ask(ask, next)
            &&& next matches JsonBState::Printing { varlena: a, detoasted: b }
            &&& ask == Request::JsonbOut(d.address)
            &&& a == varlena
            &&& b == d.address
        },
{
}

/// A value is written and read in the binary form as the coder does on its own, where it
/// is tried; it is tried where the binary form is shorter than 2^28 bytes.
pub proof fn law_reread_value_is_what_the_decoder_reads(
    json: JsonB,
    varlena: usize,
    address: usize,
    r: Option<BinaryStep>,
)
    requires
        call_ensures(JsonB::try_reread_binary, (&json, varlena, address), r),
    ensures
        r is Some <==> binary_encoding(tree(json.0)).len() < 0x1000_0000,
        r matches Some(step) ==> {
            &&& (binary_value(binary_encoding(tree(json.0))) matches Ok(t) ==> {
                &&& step.warning is None
                &&& address == varlena ==> (step.next matches JsonBProgress::Done(Some(read))
                    && tree(read.0) == t)
                &&& address != varlena ==> {
                    &&& step.next matches JsonBProgress::Ask(
                        ask,
                        JsonBState::FreeingCopy { value },
                    )
                    &&& ask == Request::Free(address)
                    &&& tree(value.0) == t
                }
            })
            &&& (binary_value(binary_encoding(tree(json.0))) matches Err(e) ==> {
                &&& step.warning matches Some(warning)
                &&& warning@ == "jsonb binary parse failed, falling back to text parse: "@ + e
                &&& step.next matches JsonBProgress::Ask(
                    ask,
                    JsonBState::Printing { varlena: a, detoasted: b },
                )
                &&& ask == Request::JsonbOut(address)
                &&& a == varlena
                &&& b == address
            })
        },
{
}

// ---- making datums ----

/// Every text of fewer than 0x3fff_ffff bytes, header included, becomes a `text` datum
/// that holds it; only longer ones become none.
pub proof fn law_new_text_datum(text: String, r: Option<NewDatum>)
    requires
        call_ensures(new_text_datum, (text,), r),
    ensures
        4 + encode_utf8(text@).len() < 0x3fff_ffff ==> (r matches Some(NewDatum::Text(t)) && t@
            == text@),
        4 + encode_utf8(text@).len() >= 0x3fff_ffff ==> r is None,
{
}

/// A `json` value becomes a `text` datum that holds its compact JSON, and a
/// [`JsonString`] one that holds its text, unless that is too long.
pub proof fn law_new_json_datum(
    json: Json,
    string: JsonString,
    r: Option<NewDatum>,
    rs: Option<NewDatum>,
)
    requires
        call_ensures(Json::into_datum, (json,), r),
        call_ensures(JsonString::into_datum, (string,), rs),
    ensures
        4 + encode_utf8(json_text(tree(json.0))).len() < 0x3fff_ffff ==> (
        r matches Some(NewDatum::Text(t)) && t@ == json_text(tree(json.0))),
        4 + encode_utf8(json_text(tree(json.0))).len() >= 0x3fff_ffff ==> r is None,
        4 + encode_utf8(string.0@).len() < 0x3fff_ffff ==> (rs matches Some(NewDatum::Text(t))
            && t@ == string.0@),
        4 + encode_utf8(string.0@).len() >= 0x3fff_ffff ==> rs is None,
{
}

/// Reading undoes [`Json::into_datum`]: every value that JSON text keeps exactly, and whose
/// text is not too long, becomes a datum, and that is read back as the value.
pub proof fn law_json_datum_is_read_back(
    json: Json,
    stored: Option<NewDatum>,
    s: JsonState,
    d: Detoasted,
    r: JsonResult,
)
    requires
        text_exact(tree(json.0), TEXT_DEPTH as nat),
        4 + encode_utf8(json_text(tree(json.0))).len() < 0x3fff_ffff,
        call_ensures(Json::into_datum, (json,), stored),
        stored matches Some(NewDatum::Text(t)) ==> d.data@ == encode_utf8(t@),
        call_ensures(JsonState::resume, (s, Reply::Varlena(d)), r),
    ensures
        stored matches Some(NewDatum::Text(_)),
        r matches Ok(JsonProgress::Done(Some(read))) && tree(read.0) == tree(json.0),
{
}

/// Reading undoes [`JsonString::into_datum`]: every text that is not too long becomes a
/// datum, and that is read back as the text, without a copy or with one.
pub proof fn law_json_string_datum_is_read_back(
    string: JsonString,
    stored: Option<NewDatum>,
    varlena: usize,
    d: Detoasted,
    r: JsonStringResult,
    last: JsonStringResult,
)
    requires
        4 + encode_utf8(string.0@).len() < 0x3fff_ffff,
        call_ensures(JsonString::into_datum, (string,), stored),
        stored matches Some(NewDatum::Text(t)) ==> d.data@ == encode_utf8(t@),
        call_ensures(
            JsonStringState::resume,
            (JsonStringState::Detoasting { varlena }, Reply::Varlena(d)),
            r,
        ),
        r matches Ok(JsonStringProgress::Ask(_, s)) ==> call_ensures(
            JsonStringState::resume,
            (s, Reply::Freed),
            last,
        ),
    ensures
        stored matches Some(NewDatum::Text(_)),
        d.address == varlena ==> (r matches Ok(JsonStringProgress::Done(Some(read))) && read.0@
            == string.0@),
        d.address != varlena ==> (last matches Ok(JsonStringProgress::Done(Some(read))) && read.0@
            == string.0@),
{
    vstd::utf8::encode_utf8_valid_utf8(string.0@);
    vstd::utf8::encode_utf8_decode_utf8(string.0@);
}

/// A text becomes a C string, its UTF-8 bytes and a terminator, exactly where it holds no
/// NUL character. The terminator is then the only zero byte.
pub proof fn law_c_string_ends_at_its_terminator(text: &str, r: Option<Vec<u8>>)
    requires
        call_ensures(to_c_string, (text,), r),
    ensures
        r is Some <==> !text@.contains('\0'),
        r matches Some(bytes) ==> {
            &&& bytes@ == encode_utf8(text@).push(0)
            &&& forall|i: int| 0 <= i < bytes@.len() - 1 ==> bytes@[i] != 0
        },
{
    lemma_utf8_holds_zero(text@);
    if let Some(bytes) = r {
        assert forall|i: int| 0 <= i < bytes@.len() - 1 implies bytes@[i] != 0 by {
            assert(bytes@[i] == encode_utf8(text@)[i]);
        }
    }
}

/// A text, and the compact JSON of a `jsonb` value, is handed to `jsonb_in` as its UTF-8
/// bytes and a terminator, unless it holds a NUL character.
pub proof fn law_new_jsonb_datum(
    text: &str,
    r: Result<NewDatum, DatumError>,
    json: JsonB,
    rj: Result<NewDatum, DatumError>,
)
    requires
        call_ensures(text_datum, (text,), r),
        call_ensures(JsonB::into_datum, (json,), rj),
    ensures
        !text@.contains('\0') ==> (r matches Ok(NewDatum::JsonbIn(bytes)) && bytes@ == encode_utf8(
            text@,
        ).push(0)),
        text@.contains('\0') ==> (r matches Err(e) && e == DatumError::TextHoldsNul),
        !json_text(tree(json.0)).contains('\0') ==> (rj matches Ok(NewDatum::JsonbIn(bytes))
            && bytes@ == encode_utf8(json_text(tree(json.0))).push(0)),
        json_text(tree(json.0)).contains('\0') ==> (rj matches Err(e) && e
            == DatumError::TextHoldsNul),
{
}

/// Reading undoes [`JsonB::into_datum`], whatever the backend's white space and order of
/// members: every value that JSON text keeps exactly is handed over as text, and where the
/// parser reads the same JSON from what the backend prints, that JSON is given out.
pub proof fn law_jsonb_datum_is_read_back(
    json: JsonB,
    stored: Result<NewDatum, DatumError>,
    printed: &[u8],
    r: Result<serde_json::Value, DatumError>,
)
    requires
        text_exact(tree(json.0), TEXT_DEPTH as nat),
        call_ensures(JsonB::into_datum, (json,), stored),
        stored matches Ok(NewDatum::JsonbIn(handed)) ==> {
            &&& valid_utf8(printed@)
            &&& text_value(decode_utf8(handed@.drop_last())) matches Some(a)
            &&& text_value(decode_utf8(printed@)) matches Some(b)
            &&& same_json(a, b)
        },
        call_ensures(jsonb_from_text, (printed,), r),
    ensures
        stored matches Ok(NewDatum::JsonbIn(_)),
        r matches Ok(read) && same_json(tree(json.0), tree(read)),
{
    law_text_exact_is_storable(tree(json.0), TEXT_DEPTH as nat);
    let chars = json_text(tree(json.0));
    if let Ok(NewDatum::JsonbIn(handed)) = stored {
        assert(handed@.drop_last() =~= encode_utf8(chars));
        vstd::utf8::encode_utf8_decode_utf8(chars);
    }
}

/// A `jsonb` value becomes a varlena whose header counts itself and the data, and whose
/// data are the binary form; where that is too long, it becomes what
/// [`JsonB::into_datum`] makes.
pub proof fn law_new_binary_datum(json: JsonB, r: Result<NewDatum, DatumError>)
    requires
        call_ensures(JsonB::into_binary_datum, (json,), r),
    ensures
        4 + binary_encoding(tree(json.0)).len() < 0x3fff_ffff ==> {
            &&& r matches Ok(NewDatum::Varlena(v))
            &&& v.data@ == binary_encoding(tree(json.0))
            &&& v.size == 4 + binary_encoding(tree(json.0)).len()
        },
        4 + binary_encoding(tree(json.0)).len() >= 0x3fff_ffff && !json_text(
            tree(json.0),
        ).contains('\0') ==> (r matches Ok(NewDatum::JsonbIn(bytes)) && bytes@ == encode_utf8(
            json_text(tree(json.0)),
        ).push(0)),
        4 + binary_encoding(tree(json.0)).len() >= 0x3fff_ffff && json_text(
            tree(json.0),
        ).contains('\0') ==> (r matches Err(e) && e == DatumError::TextHoldsNul),
{
}

/// Bytes are framed as a varlena exactly where they fit; its header counts itself and the
/// data, and as many bytes as it announces after itself are there, and are those.
pub proof fn law_framed_bytes_are_read_by_their_header(
    bytes: &[u8],
    r: Option<Varlena>,
    n: usize,
    data: &[u8],
)
    requires
        call_ensures(jsonb_from_binary, (bytes,), r),
        r matches Some(v) ==> {
            &&& call_ensures(Varlena::varsize_any_exhdr, (&v,), n)
            &&& call_ensures(Varlena::vardata_any, (&v,), data)
        },
    ensures
        r is Some <==> 4 + bytes@.len() < 0x3fff_ffff,
        r matches Some(v) ==> {
            &&& v.size == 4 + bytes@.len()
            &&& n == v.size - 4
            &&& data@.take(n as int) == bytes@
        },
{
    if let Some(v) = r {
        assert(data@.take(n as int) =~= bytes@);
    }
}

// ---- names and serializers ----

/// The types of the datums, the names of the types in SQL, and what serializers get: the
/// value itself, and of a [`JsonString`] a JSON string that holds the text.
pub proof fn law_types_names_and_serializers(
    oids: (u32, u32, u32),
    names: (&'static str, &'static str),
    json: Json,
    jsonb: JsonB,
    string: JsonString,
    j: &serde_json::Value,
    b: &serde_json::Value,
    s: serde_json::Value,
)
    requires
        call_ensures(Json::type_oid, (), oids.0),
        call_ensures(JsonB::type_oid, (), oids.1),
        call_ensures(JsonString::type_oid, (), oids.2),
        call_ensures(Json::sql_name, (), names.0),
        call_ensures(JsonB::sql_name, (), names.1),
        call_ensures(Json::serialize, (&json,), j),
        call_ensures(JsonB::serialize, (&jsonb,), b),
        call_ensures(JsonString::serialize, (&string,), s),
    ensures
        oids == (114u32, 3802u32, 114u32),
        names.0@ == "json"@,
        names.1@ == "jsonb"@,
        *j == json.0,
        *b == jsonb.0,
        tree(s) == Tree::Text(string.0@),
{
}

// ---- the two forms ----

/// Printing, parsing and the binary coder give what they give on their own.
pub proof fn law_forms_are_those_of_the_coders(
    v: serde_json::Value,
    text: String,
    bytes: Vec<u8>,
    s: &str,
    b: &[u8],
    from_s: Option<serde_json::Value>,
    from_b: Option<serde_json::Value>,
    utf8: Option<String>,
)
    requires
        call_ensures(encode_text, (&v,), text),
        call_ensures(encode_binary, (&v,), bytes),
        call_ensures(decode_text, (s,), from_s),
        call_ensures(decode_slice, (b,), from_b),
        call_ensures(decode_utf8_text, (b,), utf8),
    ensures
        text@ == json_text(tree(v)),
        bytes@ == binary_encoding(tree(v)),
        text_value(s@) matches Some(t) ==> (from_s matches Some(read) && tree(read) == t),
        text_value(s@) is None ==> from_s is None,
        slice_value(b@) matches Some(t) ==> (from_b matches Some(read) && tree(read) == t),
        slice_value(b@) is None ==> from_b is None,
        utf8 is Some <==> valid_utf8(b@),
        utf8 matches Some(chars) ==> encode_utf8(chars@) == b@,
{
    if valid_utf8(b@) {
        vstd::utf8::decode_utf8_encode_utf8(b@);
    }
}

/// What the binary decoder reads is given out, and what it refuses is given its error.
pub proof fn law_decoded_binary_is_what_the_decoder_reads(
    b: &[u8],
    r: Result<serde_json::Value, String>,
)
    requires
        binary_readable(b@),
        call_ensures(decode_binary, (b,), r),
    ensures
        binary_value(b@) matches Ok(t) ==> (r matches Ok(v) && tree(v) == t),
        binary_value(b@) matches Err(e) ==> (r matches Err(text) && text@ == e),
{
}

/// A round trip through text is printing and then parsing. A value that JSON text keeps
/// exactly comes back.
pub proof fn law_text_trip_is_print_then_parse(
    v: serde_json::Value,
    text: String,
    s: &str,
    read: Option<serde_json::Value>,
    trip: Option<serde_json::Value>,
)
    requires
        call_ensures(encode_text, (&v,), text),
        s@ == text@,
        call_ensures(decode_text, (s,), read),
        call_ensures(roundtrip_text, (&v,), trip),
    ensures
        trip is Some <==> read is Some,
        trip is Some ==> tree(trip->0) == tree(read->0),
        text_exact(tree(v), TEXT_DEPTH as nat) ==> trip is Some && tree(trip->0) == tree(v),
{
}

/// A round trip through the binary form is writing and then reading; it is tried where
/// the binary form is shorter than 2^28 bytes. A plain value comes back as the same JSON,
/// but for numbers that are not whole or do not fit 64 bits.
pub proof fn law_binary_trip_is_write_then_read(
    v: serde_json::Value,
    bytes: Vec<u8>,
    b: &[u8],
    read: Result<serde_json::Value, String>,
    trip: Result<serde_json::Value, String>,
    tried: Option<Result<serde_json::Value, String>>,
)
    requires
        binary_sized(tree(v)),
        call_ensures(encode_binary, (&v,), bytes),
        b@ == bytes@,
        call_ensures(decode_binary, (b,), read),
        call_ensures(roundtrip_binary, (&v,), trip),
        call_ensures(try_roundtrip_binary, (&v,), tried),
    ensures
        trip is Ok <==> read is Ok,
        trip is Ok ==> tree(trip->Ok_0) == tree(read->Ok_0),
        trip is Err ==> trip->Err_0@ == read->Err_0@,
        tried is Some <==> bytes@.len() < 0x1000_0000,
        tried matches Some(again) ==> {
            &&& again is Ok <==> read is Ok
            &&& again is Ok ==> tree(again->Ok_0) == tree(read->Ok_0)
            &&& again is Err ==> again->Err_0@ == read->Err_0@
        },
        binary_plain(tree(v)) ==> {
            &&& trip matches Ok(back)
            &&& same_but_rounded(tree(v), tree(back))
            &&& whole_numbers(tree(v)) ==> same_json(tree(v), tree(back))
            &&& key_sorted(tree(back))
        },
{
}

/// The sizes of the two forms are the lengths of what is written and of what is printed.
pub proof fn law_sizes_are_lengths(
    v: serde_json::Value,
    bytes: Vec<u8>,
    text: String,
    sizes: (usize, usize),
)
    requires
        call_ensures(encode_binary, (&v,), bytes),
        call_ensures(encode_text, (&v,), text),
        call_ensures(encoded_sizes, (&v,), sizes),
    ensures
        sizes.0 == bytes@.len(),
        sizes.1 == encode_utf8(text@).len(),
{
}

/// Of the two functions that the benchmarks compare, one hands a value back, and the other
/// does what printing and then parsing does.
pub proof fn law_benched_functions(
    json: JsonB,
    standard: JsonB,
    extra: Option<JsonB>,
    trip: Option<serde_json::Value>,
)
    requires
        call_ensures(bench_jsonb_standard, (json,), standard),
        call_ensures(bench_jsonb_extra_text, (json,), extra),
        call_ensures(roundtrip_text, (&json.0,), trip),
    ensures
        standard.0 == json.0,
        extra is Some <==> trip is Some,
        extra matches Some(out) ==> tree(out.0) == tree(trip->0),
        text_exact(tree(json.0), TEXT_DEPTH as nat) ==> (extra matches Some(out) && tree(out.0)
            == tree(json.0)),
{
}

// ---- making values ----

/// Scalars hold what they are made of.
pub proof fn law_made_scalars(
    s: &str,
    b: bool,
    text: serde_json::Value,
    number: serde_json::Value,
    literal: serde_json::Value,
)
    requires
        number_text(s@),
        call_ensures(string_value, (s,), text),
        call_ensures(number_value, (s,), number),
        call_ensures(bool_value, (b,), literal),
    ensures
        tree(text) == Tree::Text(s@),
        tree(number) == Tree::Number(s@),
        tree(literal) == Tree::Bool(b),
{
}

/// An array of copies has as many items as were asked for, and each is the value; an array
/// of two strings holds the two.
pub proof fn law_made_arrays(
    v: serde_json::Value,
    n: usize,
    many: serde_json::Value,
    a: &str,
    b: &str,
    pair: serde_json::Value,
)
    requires
        call_ensures(repeated_value, (&v, n), many),
        call_ensures(string_pair, (a, b), pair),
    ensures
        tree(many) matches Tree::Array(items) && items.len() == n && forall|i: int|
            0 <= i < n ==> #[trigger] items[i] == tree(v),
        tree(pair) matches Tree::Array(items) && items.len() == 2 && items[0] == Tree::Text(a@)
            && items[1] == Tree::Text(b@),
{
}

/// An object that is begun has no members, and one more member comes behind those that
/// there are and changes none of them.
pub proof fn law_made_objects(
    empty: Members,
    none: serde_json::Value,
    m: Members,
    before: serde_json::Value,
    key: &str,
    value: serde_json::Value,
    more: Members,
    after: serde_json::Value,
)
    requires
        call_ensures(Members::new, (), empty),
        call_ensures(Members::object, (empty,), none),
        call_ensures(Members::object, (m,), before),
        call_ensures(Members::with, (m, key, value), more),
        distinct_keys(more@),
        call_ensures(Members::object, (more,), after),
    ensures
        tree(none) matches Tree::Object(members) && members.len() == 0,
        tree(before) matches Tree::Object(old_members) && tree(after) matches Tree::Object(members)
            && members == old_members.push((key@, tree(value))),
{
}

/// The large payload is a hundred times the medium one.
pub proof fn law_large_payload_repeats_the_medium_one(medium: JsonB, large: JsonB)
    requires
        call_ensures(medium_jsonb, (), medium),
        call_ensures(large_jsonb, (), large),
    ensures
        tree(large.0) matches Tree::Array(items) && items.len() == 100 && forall|i: int|
            0 <= i < 100 ==> #[trigger] items[i] == tree(medium.0),
{
}

/// Where one JSON value is the other but for rounded numbers, the literals and strings are
/// the same, arrays have as many items, the `i`-th ones alike, and objects have as many
/// members, one of them with the key of the `i`-th and alike it.
pub proof fn law_rounding_keeps_the_rest(a: Tree, b: Tree, i: int)
    requires
        same_but_rounded(a, b),
    ensures
        a is Null || a is Bool || a is Text ==> b == a,
        a is Number ==> b is Number || b is Null,
        a matches Tree::Array(xs) ==> {
            &&& b matches Tree::Array(ys)
            &&& ys.len() == xs.len()
            &&& 0 <= i < xs.len() ==> same_but_rounded(xs[i], ys[i])
        },
        a matches Tree::Object(xs) ==> {
            &&& b matches Tree::Object(ys)
            &&& ys.len() == xs.len()
            &&& 0 <= i < xs.len() ==> exists|j: int|
                0 <= j < ys.len() && (#[trigger] ys[j]).0 == xs[i].0 && same_but_rounded(
                    xs[i].1,
                    ys[j].1,
                )
        },
{
    if let (Tree::Object(xs), Tree::Object(ys)) = (a, b) {
        if 0 <= i < xs.len() {
            assert(has_partner(xs[i], ys, true));
            let j = choose|j: int|
                0 <= j < ys.len() && xs[i].0 == (#[trigger] ys[j]).0 && alike(
                    xs[i].1,
                    ys[j].1,
                    true,
                );
            assert(ys[j].0 == xs[i].0 && same_but_rounded(xs[i].1, ys[j].1));
        }
    }
}

/// What a user is told about each error.
pub proof fn law_error_messages(e: DatumError, message: &'static str)
    requires
        call_ensures(DatumError::message, (&e,), message),
    ensures
        e is NotJson ==> message@ == "datum must refer to a valid json varlena"@,
        e is NotUtf8 ==> message@ == "datum must refer to valid utf-8 text"@,
        e is NotJsonb ==> message@ == "datum must refer to a valid jsonb varlena"@,
        e is TextNotUtf8 ==> message@ == "a text version of the jsonb must be valid utf-8"@,
        e is TextNotJson ==> message@ == "a text version of jsonb must be a valid json"@,
        e is TextHoldsNul ==> message@
            == "a text version of jsonb must contain no null terminator"@,
        e is UnexpectedReply ==> message@ == "the backend's reply does not answer the request"@,
{
}

} // verus!
