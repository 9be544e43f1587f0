//! The mathematical model of a JSON value, and the classes of values that
//! survive a trip through text or through the binary form.
use vstd::prelude::*;

verus! {

/// A JSON value as mathematics sees it.
pub enum Tree {
    Null,
    Bool(bool),
    /// A number, by its text: `serde_json` keeps numbers as they were written.
    Number(Seq<char>),
    Text(Seq<char>),
    Array(Seq<Tree>),
    /// The members, in the order in which they are kept.
    Object(Seq<(Seq<char>, Tree)>),
}

/// A JSON value in memory. Only its [`tree`] is visible to contracts.
#[verifier::external_type_specification]
#[verifier::external_body]
pub struct ExValue(serde_json::Value);

/// The error of the JSON text parser and printer.
#[verifier::external_type_specification]
#[verifier::external_body]
pub struct ExJsonError(serde_json::Error);

/// The error of the binary decoder. Only its [`error_text`] is visible to contracts.
#[verifier::external_type_specification]
#[verifier::external_body]
pub struct ExBinaryError(jsonb::Error);

/// What a `serde_json::Value` holds: its variant, and below it the text of a
/// number, the characters of a string, the items of an array, the members of an
/// object.
pub uninterp spec fn tree(v: serde_json::Value) -> Tree;

/// What `Debug` prints for a `jsonb::Error`.
pub uninterp spec fn error_text(e: jsonb::Error) -> Seq<char>;

/// The name under which `serde_json` hands a number from one of its parts to
/// another. An object that starts with this key is taken for a number.
pub open spec fn number_token() -> Seq<char> {
    "$serde_json::private::Number"@
}

/// One or more decimal digits.
pub open spec fn digits(s: Seq<char>) -> bool {
    s.len() > 0 && forall|i: int| 0 <= i < s.len() ==> '0' <= #[trigger] s[i] <= '9'
}

/// Digits without a superfluous zero in front.
pub open spec fn whole_part(s: Seq<char>) -> bool {
    digits(s) && (s[0] == '0' ==> s.len() == 1)
}

/// Nothing, or a point and digits.
pub open spec fn fraction_part(s: Seq<char>) -> bool {
    s.len() > 0 ==> s[0] == '.' && digits(s.skip(1))
}

/// Nothing, or `e`, a sign and digits.
pub open spec fn exponent_part(s: Seq<char>) -> bool {
    s.len() > 0 ==> s.len() > 2 && s[0] == 'e' && (s[1] == '+' || s[1] == '-') && digits(s.skip(2))
}

/// `s` without its minus sign, if it has one.
pub open spec fn unsigned_part(s: Seq<char>) -> Seq<char> {
    if s.len() > 0 && s[0] == '-' {
        s.skip(1)
    } else {
        s
    }
}

/// `s` falls into a whole part, a fraction up to `f` and an exponent.
pub open spec fn number_parts(s: Seq<char>, w: int, f: int) -> bool {
    &&& 0 < w <= f <= s.len()
    &&& whole_part(s.take(w))
    &&& fraction_part(s.subrange(w, f))
    &&& exponent_part(s.skip(f))
}

/// A JSON number in the form in which the parser keeps it: an exponent starts
/// with a small `e` and always has its sign.
pub open spec fn number_text(s: Seq<char>) -> bool {
    exists|w: int, f: int| number_parts(unsigned_part(s), w, f)
}

/// The number that a row of digits stands for.
pub open spec fn digits_value(s: Seq<char>) -> int
    decreases s.len(),
{
    if s.len() == 0 {
        0
    } else {
        10 * digits_value(s.drop_last()) + (s.last() as int - '0' as int)
    }
}

/// A whole number between -2^63 and 2^64 - 1, written in the one usual way.
pub open spec fn integer_text(s: Seq<char>) -> bool {
    let d = unsigned_part(s);
    &&& whole_part(d)
    &&& if d.len() < s.len() {
        0 < digits_value(d) <= 0x8000_0000_0000_0000
    } else {
        digits_value(d) < 0x1_0000_0000_0000_0000
    }
}

/// `a` comes before `b` in the order of strings.
pub open spec fn text_before(a: Seq<char>, b: Seq<char>) -> bool {
    exists|k: int| #[trigger] differs_at(a, b, k)
}

/// `a` and `b` agree up to `k`, where `a` ends first or has the smaller character.
pub open spec fn differs_at(a: Seq<char>, b: Seq<char>, k: int) -> bool {
    &&& 0 <= k <= a.len()
    &&& k < b.len()
    &&& a.take(k) == b.take(k)
    &&& k < a.len() ==> a[k] < b[k]
}

/// A value that the JSON text keeps exactly: at most `room` containers inside
/// one another, numbers as the parser writes them, and no object that would be
/// taken for a number.
pub open spec fn text_exact(t: Tree, room: nat) -> bool
    decreases t,
{
    match t {
        Tree::Null | Tree::Bool(_) | Tree::Text(_) => true,
        Tree::Number(n) => number_text(n),
        Tree::Array(items) => {
            &&& room > 0
            &&& forall|i: int|
                0 <= i < items.len() ==> text_exact(#[trigger] items[i], (room - 1) as nat)
        },
        Tree::Object(members) => {
            &&& room > 0
            &&& members.len() > 0 ==> members[0].0 != number_token()
            &&& forall|i: int|
                0 <= i < members.len() ==> text_exact((#[trigger] members[i]).1, (room - 1) as nat)
        },
    }
}

/// No object, at any depth, would be taken for a number once its members are in the order
/// of their keys.
pub open spec fn binary_plain(t: Tree) -> bool
    decreases t,
{
    match t {
        Tree::Array(items) => forall|i: int|
            0 <= i < items.len() ==> binary_plain(#[trigger] items[i]),
        Tree::Object(members) => {
            &&& (exists|i: int|
                0 <= i < members.len() && (#[trigger] members[i]).0 == number_token())
                ==> exists|j: int|
                0 <= j < members.len() && text_before((#[trigger] members[j]).0, number_token())
            &&& forall|i: int| 0 <= i < members.len() ==> binary_plain((#[trigger] members[i]).1)
        },
        _ => true,
    }
}

/// Every number, at any depth, is whole and fits 64 bits.
pub open spec fn whole_numbers(t: Tree) -> bool
    decreases t,
{
    match t {
        Tree::Number(n) => integer_text(n),
        Tree::Array(items) => forall|i: int|
            0 <= i < items.len() ==> whole_numbers(#[trigger] items[i]),
        Tree::Object(members) => forall|i: int|
            0 <= i < members.len() ==> whole_numbers((#[trigger] members[i]).1),
        _ => true,
    }
}

/// The same JSON value: the order in which an object keeps its members does not
/// matter.
pub open spec fn same_json(a: Tree, b: Tree) -> bool {
    alike(a, b, false)
}

/// The same JSON value, but for numbers that are not whole or do not fit 64 bits: in the
/// place of such a number of `a` stands some number or `null`.
pub open spec fn same_but_rounded(a: Tree, b: Tree) -> bool {
    alike(a, b, true)
}

/// `a` and `b` are the same JSON value; where `rounded`, numbers of `a` that are not whole
/// or do not fit 64 bits may have become other numbers or `null`.
pub open spec fn alike(a: Tree, b: Tree, rounded: bool) -> bool
    decreases a,
{
    match (a, b) {
        (Tree::Array(xs), Tree::Array(ys)) => {
            &&& xs.len() == ys.len()
            &&& forall|i: int| 0 <= i < xs.len() ==> alike(#[trigger] xs[i], ys[i], rounded)
        },
        (Tree::Object(xs), Tree::Object(ys)) => {
            &&& xs.len() == ys.len()
            &&& forall|i: int| 0 <= i < xs.len() ==> has_partner(#[trigger] xs[i], ys, rounded)
            &&& forall|j: int| 0 <= j < ys.len() ==> is_partner(xs, #[trigger] ys[j], rounded)
        },
        (Tree::Number(n), _) => a == b || rounded && !integer_text(n) && (b is Number || b is Null),
        _ => a == b,
    }
}

/// Some member of `ys` is [`alike`] the member `x`: it has its key, and an alike value.
pub open spec fn has_partner(
    x: (Seq<char>, Tree),
    ys: Seq<(Seq<char>, Tree)>,
    rounded: bool,
) -> bool
    decreases x,
{
    exists|j: int|
        0 <= j < ys.len() && x.0 == (#[trigger] ys[j]).0 && alike(x.1, ys[j].1, rounded)
}

/// The member `y` is [`alike`] some member of `xs`: it has its key, and an alike value.
pub open spec fn is_partner(
    xs: Seq<(Seq<char>, Tree)>,
    y: (Seq<char>, Tree),
    rounded: bool,
) -> bool
    decreases xs,
{
    exists|i: int|
        0 <= i < xs.len() && (#[trigger] xs[i]).0 == y.0 && alike(xs[i].1, y.1, rounded)
}

/// Where all numbers are whole and fit 64 bits, none is rounded.
pub proof fn lemma_whole_numbers_are_kept(a: Tree, b: Tree)
    requires
        whole_numbers(a),
        same_but_rounded(a, b),
    ensures
        same_json(a, b),
    decreases a,
{
    match (a, b) {
        (Tree::Array(xs), Tree::Array(ys)) => {
            assert forall|i: int| 0 <= i < xs.len() implies alike(
                #[trigger] xs[i],
                ys[i],
                false,
            ) by {
                lemma_whole_numbers_are_kept(xs[i], ys[i]);
            }
        },
        (Tree::Object(xs), Tree::Object(ys)) => {
            assert forall|i: int| 0 <= i < xs.len() implies has_partner(
                #[trigger] xs[i],
                ys,
                false,
            ) by {
                assert(has_partner(xs[i], ys, true));
                let j = choose|j: int|
                    0 <= j < ys.len() && xs[i].0 == (#[trigger] ys[j]).0 && alike(
                        xs[i].1,
                        ys[j].1,
                        true,
                    );
                lemma_whole_numbers_are_kept(xs[i].1, ys[j].1);
            }
            assert forall|j: int| 0 <= j < ys.len() implies is_partner(
                xs,
                #[trigger] ys[j],
                false,
            ) by {
                assert(is_partner(xs, ys[j], true));
                let i = choose|i: int|
                    0 <= i < xs.len() && (#[trigger] xs[i]).0 == ys[j].0 && alike(
                        xs[i].1,
                        ys[j].1,
                        true,
                    );
                lemma_whole_numbers_are_kept(xs[i].1, ys[j].1);
            }
        },
        _ => {},
    }
}

/// Every object, at any depth, keeps its members in the order of their keys.
pub open spec fn key_sorted(t: Tree) -> bool
    decreases t,
{
    match t {
        Tree::Array(items) => forall|i: int|
            0 <= i < items.len() ==> key_sorted(#[trigger] items[i]),
        Tree::Object(members) => {
            &&& forall|i: int, j: int|
                0 <= i < j < members.len() ==> text_before(
                    (#[trigger] members[i]).0,
                    (#[trigger] members[j]).0,
                )
            &&& forall|i: int| 0 <= i < members.len() ==> key_sorted((#[trigger] members[i]).1)
        },
        _ => true,
    }
}

/// No number, at any depth, holds a NUL character.
pub open spec fn numbers_free_of_nul(t: Tree) -> bool
    decreases t,
{
    match t {
        Tree::Number(n) => !n.contains('\0'),
        Tree::Array(items) => forall|i: int|
            0 <= i < items.len() ==> numbers_free_of_nul(#[trigger] items[i]),
        Tree::Object(members) => forall|i: int|
            0 <= i < members.len() ==> numbers_free_of_nul((#[trigger] members[i]).1),
        _ => true,
    }
}

} // verus!
