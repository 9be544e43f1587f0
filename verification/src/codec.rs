//! The two forms of a JSON value: its text, and the binary form of the `jsonb`
//! crate.
//!
//! The binary form is not the one that PostgreSQL keeps on disk. Bytes of the one
//! cannot be read as the other.
use vstd::prelude::*;
use vstd::utf8::{decode_utf8, encode_utf8, valid_utf8};

use crate::tree::{
    Tree, binary_plain, error_text, key_sorted, lemma_whole_numbers_are_kept,
    numbers_free_of_nul, same_but_rounded, same_json, text_exact, tree, whole_numbers,
};

verus! {

/// How many containers inside one another the JSON text parser accepts.
pub const TEXT_DEPTH: usize = 127;

/// A string, a key or an inner container of a binary value must stay below this length:
/// its length field has 28 bits.
pub const ENTRY_LIMIT: usize = 0x1000_0000;

/// A container of a binary value must hold fewer items than this: its header counts
/// them in 29 bits.
pub const COUNT_LIMIT: usize = 0x2000_0000;

/// For more entries than this the decoder is not asked: it makes room for them before it
/// sees that they are missing.
pub const REFUSED_COUNT: usize = 0x800_0000;

/// The text that `serde_json::to_string` prints for a value.
pub uninterp spec fn json_text(t: Tree) -> Seq<char>;

/// What `serde_json::from_str` reads from a text, if it accepts it.
pub uninterp spec fn text_value(s: Seq<char>) -> Option<Tree>;

/// What `serde_json::from_slice` reads from bytes, if it accepts them.
pub uninterp spec fn slice_value(b: Seq<u8>) -> Option<Tree>;

/// The bytes that `jsonb::Value::to_vec` writes for a value.
pub uninterp spec fn binary_encoding(t: Tree) -> Seq<u8>;

/// What `jsonb::from_raw_jsonb` reads from bytes, or the [`error_text`] of why it does not.
pub uninterp spec fn binary_value(b: Seq<u8>) -> Result<Tree, Seq<char>>;

/// The first byte marks a scalar, an object or an array of the binary form.
pub open spec fn has_container_header(b: Seq<u8>) -> bool {
    b.len() >= 4 && (b[0] / 32 == 1 || b[0] / 32 == 2 || b[0] / 32 == 4)
}

/// How many items the header of a binary value announces.
pub open spec fn header_count(b: Seq<u8>) -> int {
    (b[0] % 32) * 0x100_0000 + b[1] * 0x1_0000 + b[2] * 0x100 + b[3]
}

/// Where the entries that the header announces end: one for a scalar, one for each item
/// of an array, two for each member of an object.
pub open spec fn entries_end(b: Seq<u8>) -> int {
    if b[0] / 32 == 1 {
        8
    } else if b[0] / 32 == 2 {
        4 + 8 * header_count(b)
    } else {
        4 + 4 * header_count(b)
    }
}

/// Bytes that the binary decoder turns away by their header: there is none, or they end
/// before the entries that it announces.
pub open spec fn turned_away(b: Seq<u8>) -> bool {
    ||| !has_container_header(b)
    ||| header_count(b) < REFUSED_COUNT && b.len() < entries_end(b)
}

/// The [`error_text`] for bytes that are turned away.
pub open spec fn refusal(b: Seq<u8>) -> Seq<char> {
    if b.len() >= 4 && !has_container_header(b) {
        "InvalidJsonb"@
    } else {
        "InvalidEOF"@
    }
}

/// A container that stands inside another fits its length field.
pub open spec fn entry_sized(t: Tree) -> bool {
    t is Array || t is Object ==> binary_encoding(t).len() < ENTRY_LIMIT
}

/// Every length and every count inside the binary form of a value fits its field. The
/// binary form as a whole may be of any length.
pub open spec fn binary_sized(t: Tree) -> bool
    decreases t,
{
    match t {
        Tree::Null | Tree::Bool(_) | Tree::Number(_) => true,
        Tree::Text(s) => encode_utf8(s).len() < ENTRY_LIMIT,
        Tree::Array(items) => {
            &&& items.len() < COUNT_LIMIT
            &&& forall|i: int|
                0 <= i < items.len() ==> binary_sized(#[trigger] items[i]) && entry_sized(items[i])
        },
        Tree::Object(members) => {
            &&& members.len() < COUNT_LIMIT
            &&& forall|i: int|
                0 <= i < members.len() ==> {
                    &&& encode_utf8((#[trigger] members[i]).0).len() < ENTRY_LIMIT
                    &&& binary_sized(members[i].1)
                    &&& entry_sized(members[i].1)
                }
        },
    }
}

/// Bytes on which the binary decoder is safe to use: the encoding of a value that is
/// [`binary_sized`], or bytes that it turns away by their header.
pub open spec fn binary_readable(b: Seq<u8>) -> bool {
    ||| turned_away(b)
    ||| exists|v: serde_json::Value|
        binary_sized(tree(v)) && b == binary_encoding(#[trigger] tree(v))
}

/// The text parser reads back what was printed for a [`text_exact`] value, if `s` is
/// such a text.
pub open spec fn reads_text_back(s: Seq<char>) -> bool {
    forall|v: serde_json::Value|
        text_exact(tree(v), TEXT_DEPTH as nat) && s == json_text(#[trigger] tree(v))
            ==> text_value(s) == Some(tree(v))
}

/// The parser of bytes reads back the UTF-8 bytes of what was printed for a
/// [`text_exact`] value, if `b` are such bytes.
pub open spec fn reads_slice_back(b: Seq<u8>) -> bool {
    forall|v: serde_json::Value|
        text_exact(tree(v), TEXT_DEPTH as nat) && b == encode_utf8(json_text(#[trigger] tree(v)))
            ==> slice_value(b) == Some(tree(v))
}

/// What the binary decoder gives back of a value: the same JSON, but for numbers that are
/// not whole or do not fit 64 bits, with members in the order of their keys.
pub open spec fn kept_in_binary(t: Tree, read: Result<Tree, Seq<char>>) -> bool {
    &&& read is Ok
    &&& same_but_rounded(t, read->Ok_0)
    &&& key_sorted(read->Ok_0)
    &&& whole_numbers(t) ==> same_json(t, read->Ok_0)
}

/// The binary decoder reads back what was written, if `b` is the encoding of a
/// [`binary_plain`] value that is [`binary_sized`].
pub open spec fn reads_binary_back(b: Seq<u8>) -> bool {
    forall|v: serde_json::Value|
        binary_plain(tree(v)) && binary_sized(tree(v)) && b == binary_encoding(#[trigger] tree(v))
            ==> kept_in_binary(tree(v), binary_value(b))
}

/// `serde_json::to_string`, on a `serde_json::Value`.
///
/// Trusted: it succeeds on every value, and its result depends on the value
/// alone. A NUL character can only come from the text of a number: in strings and
/// keys it is escaped. What it prints for a value that is [`text_exact`],
/// `serde_json::from_str` reads back.
#[verifier::external_body]
fn print_json(v: &serde_json::Value) -> (r: Result<String, serde_json::Error>)
    ensures
        r is Ok,
        r->Ok_0@ == json_text(tree(*v)),
        numbers_free_of_nul(tree(*v)) ==> !r->Ok_0@.contains('\0'),
        text_exact(tree(*v), TEXT_DEPTH as nat) ==> text_value(r->Ok_0@) == Some(tree(*v)),
{
    serde_json::to_string(v)
}

/// `serde_json::from_str`, into a `serde_json::Value`.
///
/// Trusted: whether it accepts a text, and what it reads there, depends on the
/// text alone. What it reads is [`text_exact`], and it reads back what
/// `serde_json::to_string` printed for a value that is.
#[verifier::external_body]
fn parse_str(s: &str) -> (r: Result<serde_json::Value, serde_json::Error>)
    ensures
        r is Ok <==> text_value(s@) is Some,
        r is Ok ==> text_value(s@) == Some(tree(r->Ok_0)),
        r is Ok ==> text_exact(tree(r->Ok_0), TEXT_DEPTH as nat),
        forall|v: serde_json::Value|
            text_exact(tree(v), TEXT_DEPTH as nat) && s@ == json_text(#[trigger] tree(v))
                ==> r is Ok && tree(r->Ok_0) == tree(v),
{
    serde_json::from_str(s)
}

/// `serde_json::from_slice`, into a `serde_json::Value`.
///
/// Trusted: whether it accepts the bytes, and what it reads there, depends on the
/// bytes alone. What it reads is [`text_exact`], and it reads back the UTF-8 bytes of
/// what `serde_json::to_string` printed for a value that is.
#[verifier::external_body]
fn parse_slice(b: &[u8]) -> (r: Result<serde_json::Value, serde_json::Error>)
    ensures
        r is Ok <==> slice_value(b@) is Some,
        r is Ok ==> slice_value(b@) == Some(tree(r->Ok_0)),
        r is Ok ==> text_exact(tree(r->Ok_0), TEXT_DEPTH as nat),
        forall|v: serde_json::Value|
            text_exact(tree(v), TEXT_DEPTH as nat) && b@ == encode_utf8(
                json_text(#[trigger] tree(v)),
            ) ==> r is Ok && tree(r->Ok_0) == tree(v),
{
    serde_json::from_slice(b)
}

/// `jsonb::Value::to_vec`, on a value that is first made a `jsonb::Value`.
///
/// Trusted: the bytes depend on the value alone. They contain every string, every key
/// and every inner container, and four bytes for each item, so where they stay below
/// [`ENTRY_LIMIT`] every length and count inside does.
#[verifier::external_body]
fn write_binary(v: &serde_json::Value) -> (r: Vec<u8>)
    ensures
        r@ == binary_encoding(tree(*v)),
        r@.len() < ENTRY_LIMIT ==> binary_sized(tree(*v)),
{
    jsonb::Value::from(v).to_vec()
}

/// `jsonb::from_raw_jsonb`, into a `serde_json::Value`.
///
/// Trusted: on bytes that are [`binary_readable`] it returns, and what it reads, or the
/// error that it gives, depends on the bytes alone. Bytes that are [`turned_away`] give
/// `Error::InvalidJsonb` where the header has no known tag, and else
/// `Error::InvalidEOF`. It reads back the encoding of a value that is [`binary_plain`],
/// with the members of every object in the order of their keys, and keeps all but numbers
/// that are not whole or do not fit 64 bits. Those come back as the nearest double, or as
/// `null` where no finite one is near; which double is not said. On bytes that are not
/// readable it may index out of range, so they are left out.
#[verifier::external_body]
fn read_binary(b: &[u8]) -> (r: Result<serde_json::Value, jsonb::Error>)
    requires
        binary_readable(b@),
    ensures
        r is Ok ==> binary_value(b@) == Ok::<_, Seq<char>>(tree(r->Ok_0)),
        r is Err ==> binary_value(b@) == Err::<Tree, _>(error_text(r->Err_0)),
        turned_away(b@) ==> r is Err && error_text(r->Err_0) == refusal(b@),
        forall|v: serde_json::Value|
            binary_plain(tree(v)) && binary_sized(tree(v)) && b@ == binary_encoding(
                #[trigger] tree(v),
            ) ==> r is Ok && same_but_rounded(tree(v), tree(r->Ok_0)) && key_sorted(
                tree(r->Ok_0),
            ),
{
    jsonb::from_raw_jsonb(&jsonb::RawJsonb::new(b))
}

/// `Debug` of `jsonb::Error`.
///
/// Trusted: the text depends on the error alone.
#[verifier::external_body]
fn show_error(e: &jsonb::Error) -> (r: String)
    ensures
        r@ == error_text(*e),
{
    format!("{:?}", e)
}

/// `serde_json::to_value`, on a string slice.
///
/// Trusted: it succeeds, with a JSON string that holds the characters of the slice.
#[verifier::external_body]
fn str_to_value(s: &str) -> (r: Result<serde_json::Value, serde_json::Error>)
    ensures
        r is Ok,
        tree(r->Ok_0) == Tree::Text(s@),
{
    serde_json::to_value(s)
}

/// `std::str::from_utf8`.
///
/// Trusted: it accepts exactly the bytes that are UTF-8, and gives the characters
/// that they encode.
#[verifier::external_body]
fn str_from_utf8(b: &[u8]) -> (r: Option<&str>)
    ensures
        r is Some <==> valid_utf8(b@),
        r is Some ==> r->0@ == decode_utf8(b@),
{
    std::str::from_utf8(b).ok()
}

/// Prints a value as compact JSON.
pub fn encode_text(v: &serde_json::Value) -> (r: String)
    ensures
        r@ == json_text(tree(*v)),
        numbers_free_of_nul(tree(*v)) ==> !r@.contains('\0'),
        text_exact(tree(*v), TEXT_DEPTH as nat) ==> text_value(r@) == Some(tree(*v)),
{
    print_json(v).unwrap()
}

/// Reads a value from JSON text; `None` where the text is not JSON.
pub fn decode_text(s: &str) -> (r: Option<serde_json::Value>)
    ensures
        r is Some <==> text_value(s@) is Some,
        r is Some ==> text_value(s@) == Some(tree(r->0)),
        r is Some ==> text_exact(tree(r->0), TEXT_DEPTH as nat),
        reads_text_back(s@),
{
    match parse_str(s) {
        Ok(v) => Some(v),
        Err(_) => None,
    }
}

/// Reads a value from the bytes of a JSON text; `None` where they are not JSON.
pub fn decode_slice(b: &[u8]) -> (r: Option<serde_json::Value>)
    ensures
        r is Some <==> slice_value(b@) is Some,
        r is Some ==> slice_value(b@) == Some(tree(r->0)),
        r is Some ==> text_exact(tree(r->0), TEXT_DEPTH as nat),
        reads_slice_back(b@),
{
    match parse_slice(b) {
        Ok(v) => Some(v),
        Err(_) => None,
    }
}

/// Writes a value in the binary form.
pub fn encode_binary(v: &serde_json::Value) -> (r: Vec<u8>)
    ensures
        r@ == binary_encoding(tree(*v)),
        r@.len() < ENTRY_LIMIT ==> binary_sized(tree(*v)),
{
    write_binary(v)
}

/// Whether the binary decoder turns bytes away by their header.
pub fn is_turned_away(b: &[u8]) -> (r: bool)
    ensures
        r == turned_away(b@),
{
    if b.len() < 4 {
        return true;
    }
    let tag: u8 = b[0] / 32;
    if tag != 1 && tag != 2 && tag != 4 {
        return true;
    }
    let count: u64 = (b[0] % 32) as u64 * 0x100_0000 + b[1] as u64 * 0x1_0000 + b[2] as u64 * 0x100
        + b[3] as u64;
    let end: u64 = if tag == 1 {
        8
    } else if tag == 2 {
        4 + 8 * count
    } else {
        4 + 4 * count
    };
    count < REFUSED_COUNT as u64 && (b.len() as u64) < end
}

/// Reads a value from the binary form, or says why the decoder turns it away.
pub fn decode_binary(b: &[u8]) -> (r: Result<serde_json::Value, String>)
    requires
        binary_readable(b@),
    ensures
        match r {
            Ok(v) => binary_value(b@) == Ok::<_, Seq<char>>(tree(v)),
            Err(e) => binary_value(b@) == Err::<Tree, _>(e@),
        },
        turned_away(b@) ==> (r matches Err(e) && e@ == refusal(b@)),
        reads_binary_back(b@),
{
    let read = read_binary(b);
    proof {
        assert forall|v: serde_json::Value|
            binary_plain(tree(v)) && binary_sized(tree(v)) && b@ == binary_encoding(
                #[trigger] tree(v),
            ) implies kept_in_binary(tree(v), binary_value(b@)) by {
            if whole_numbers(tree(v)) {
                lemma_whole_numbers_are_kept(tree(v), tree(read->Ok_0));
            }
        }
    }
    match read {
        Ok(v) => Ok(v),
        Err(e) => Err(show_error(&e)),
    }
}

/// The JSON string that holds a text.
pub fn string_value(s: &str) -> (r: serde_json::Value)
    ensures
        tree(r) == Tree::Text(s@),
{
    str_to_value(s).unwrap()
}

/// The text of UTF-8 bytes; `None` where they are not UTF-8.
pub fn decode_utf8_text(b: &[u8]) -> (r: Option<String>)
    ensures
        r is Some <==> valid_utf8(b@),
        r is Some ==> r->0@ == decode_utf8(b@),
{
    match str_from_utf8(b) {
        Some(s) => Some(s.to_owned()),
        None => None,
    }
}

/// Prints a value and reads the text again; `None` where the parser does not take
/// what was printed. A value that is [`text_exact`] comes back as it was.
pub fn roundtrip_text(v: &serde_json::Value) -> (r: Option<serde_json::Value>)
    ensures
        r is Some <==> text_value(json_text(tree(*v))) is Some,
        r is Some ==> text_value(json_text(tree(*v))) == Some(tree(r->0)),
        text_exact(tree(*v), TEXT_DEPTH as nat) ==> r is Some && tree(r->0) == tree(*v),
{
    let text = encode_text(v);
    decode_text(text.as_str())
}

/// What comes of writing a value in the binary form and reading it again.
pub open spec fn binary_trip(t: Tree, r: Result<serde_json::Value, String>) -> bool {
    let read = binary_value(binary_encoding(t));
    &&& match r {
        Ok(v) => read == Ok::<_, Seq<char>>(tree(v)),
        Err(e) => read == Err::<Tree, _>(e@),
    }
    &&& binary_plain(t) ==> kept_in_binary(t, read)
}

/// Writes a value in the binary form and reads it again, or says why the decoder turns the
/// bytes away. It takes every value that is [`binary_plain`], and gives the same JSON,
/// but for numbers that are not whole or do not fit 64 bits, with the members of every
/// object in the order of their keys.
pub fn roundtrip_binary(v: &serde_json::Value) -> (r: Result<serde_json::Value, String>)
    requires
        binary_sized(tree(*v)),
    ensures
        binary_trip(tree(*v), r),
{
    let bytes = encode_binary(v);
    decode_binary(bytes.as_slice())
}

/// [`roundtrip_binary`] for a value of unknown size; `None` where its binary form reaches
/// [`ENTRY_LIMIT`], and the trip is not made.
pub fn try_roundtrip_binary(v: &serde_json::Value) -> (r: Option<
    Result<serde_json::Value, String>,
>)
    ensures
        r is Some <==> binary_encoding(tree(*v)).len() < ENTRY_LIMIT,
        r is Some ==> binary_trip(tree(*v), r->0),
{
    if encode_binary(v).len() < ENTRY_LIMIT {
        Some(roundtrip_binary(v))
    } else {
        None
    }
}

/// How many bytes a value takes in the binary form, and how many as text.
pub fn encoded_sizes(v: &serde_json::Value) -> (r: (usize, usize))
    ensures
        r.0 == binary_encoding(tree(*v)).len(),
        r.1 == encode_utf8(json_text(tree(*v))).len(),
{
    let text = encode_text(v);
    (encode_binary(v).len(), text.as_str().as_bytes().len())
}

} // verus!
