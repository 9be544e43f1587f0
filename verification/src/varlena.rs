//! Datums that are still to be made.
use vstd::prelude::*;
use vstd::utf8::{encode_scalar, encode_utf8};

verus! {

/// The bytes of a four-byte varlena header.
pub const VARHDRSZ: usize = 4;

/// A varlena, header included, must stay below this size: its length field has 30
/// bits.
pub const VARLENA_LIMIT: usize = 0x3fff_ffff;

/// A varlena with a four-byte header.
#[derive(Debug)]
pub struct Varlena {
    /// What the header says: the size of header and data together.
    pub size: i32,
    pub data: Vec<u8>,
}

impl Varlena {
    /// The header tells the truth, and its length field can.
    pub open spec fn wf(&self) -> bool {
        &&& self.size == VARHDRSZ + self.data@.len()
        &&& self.size < VARLENA_LIMIT
    }

    /// How many bytes the header announces after itself.
    pub fn varsize_any_exhdr(&self) -> (r: usize)
        requires
            self.wf(),
        ensures
            r == self.data@.len(),
    {
        self.size as usize - VARHDRSZ
    }

    /// The bytes after the header.
    pub fn vardata_any(&self) -> (r: &[u8])
        ensures
            r@ == self.data@,
    {
        self.data.as_slice()
    }
}

/// What the backend is to make a datum of.
#[derive(Debug)]
pub enum NewDatum {
    /// A `text` varlena with the UTF-8 bytes of the string.
    Text(String),
    /// This varlena.
    Varlena(Varlena),
    /// What `jsonb_in` makes of this C string, terminator included.
    JsonbIn(Vec<u8>),
}

/// Bytes of this length fit into a varlena.
pub open spec fn fits_varlena(len: nat) -> bool {
    VARHDRSZ + len < VARLENA_LIMIT
}

/// The datum that is made of a text: a `text` varlena, where the text fits into one.
pub open spec fn plain_text_datum(text: Seq<char>, r: Option<NewDatum>) -> bool {
    if fits_varlena(encode_utf8(text).len()) {
        r matches Some(NewDatum::Text(t)) && t@ == text
    } else {
        r is None
    }
}

/// Asks for a `text` varlena; `None` where the text is too long for one.
pub fn new_text_datum(text: String) -> (r: Option<NewDatum>)
    ensures
        plain_text_datum(text@, r),
{
    let len: usize = text.as_str().as_bytes().len().checked_add(VARHDRSZ)?;
    if len >= VARLENA_LIMIT {
        return None;
    }
    Some(NewDatum::Text(text))
}

/// Frames bytes as a varlena; `None` where they are too long for one.
pub fn jsonb_from_binary(bytes: &[u8]) -> (r: Option<Varlena>)
    ensures
        r is Some <==> fits_varlena(bytes@.len()),
        r is Some ==> r->0.wf() && r->0.data@ == bytes@,
{
    let len: usize = bytes.len().checked_add(VARHDRSZ)?;
    if len >= VARLENA_LIMIT {
        return None;
    }
    Some(Varlena { size: len as i32, data: vstd::slice::slice_to_vec(bytes) })
}

/// Text as a C string: its UTF-8 bytes and a terminator.
pub open spec fn c_string(s: Seq<char>) -> Seq<u8> {
    encode_utf8(s).push(0)
}

/// Of all characters, NUL alone has a zero byte in its encoding.
proof fn lemma_scalar_holds_zero(scalar: u32)
    ensures
        encode_scalar(scalar).contains(0) <==> scalar == 0,
{
    let bytes = encode_scalar(scalar);
    if scalar <= 0x7F {
        assert((scalar & 0x7F) as u8 == scalar) by (bit_vector)
            requires
                scalar <= 0x7F,
        ;
        assert(bytes[0] == scalar);
    } else {
        assert(forall|b: u8| #[trigger] (0x80 | b) != 0) by (bit_vector);
        assert(0xC0 | ((scalar >> 6) & 0x1F) as u8 != 0) by (bit_vector);
        assert(0xE0 | ((scalar >> 12) & 0x0F) as u8 != 0) by (bit_vector);
        assert(0xF0 | ((scalar >> 18) & 0x7) as u8 != 0) by (bit_vector);
    }
}

/// The encoding of a text holds a zero byte exactly where the text holds a NUL.
pub proof fn lemma_utf8_holds_zero(s: Seq<char>)
    ensures
        encode_utf8(s).contains(0) <==> s.contains('\0'),
    decreases s.len(),
{
    if s.len() > 0 {
        let first = encode_scalar(s[0] as u32);
        let rest = encode_utf8(s.drop_first());
        lemma_scalar_holds_zero(s[0] as u32);
        lemma_utf8_holds_zero(s.drop_first());
        if first.contains(0) {
            let i = choose|i: int| 0 <= i < first.len() && first[i] == 0;
            assert(encode_utf8(s)[i] == 0);
            vstd::utf8::char_u32_cast(s[0], 0);
        } else if rest.contains(0) {
            let i = choose|i: int| 0 <= i < rest.len() && rest[i] == 0;
            assert(encode_utf8(s)[first.len() + i] == 0);
            let k = choose|k: int| 0 <= k < s.drop_first().len() && s.drop_first()[k] == '\0';
            assert(s[k + 1] == '\0');
        } else {
            assert forall|k: int| 0 <= k < s.len() implies s[k] != '\0' by {
                if k > 0 {
                    assert(s.drop_first()[k - 1] == s[k]);
                }
            }
            assert forall|i: int| 0 <= i < encode_utf8(s).len() implies encode_utf8(s)[i] != 0 by {
                if i >= first.len() {
                    assert(encode_utf8(s)[i] == rest[i - first.len()]);
                }
            }
        }
    }
}

/// Makes a C string of a text; `None` where the text holds a NUL character.
pub fn to_c_string(s: &str) -> (r: Option<Vec<u8>>)
    ensures
        r is Some <==> !s@.contains('\0'),
        r is Some ==> r->0@ == c_string(s@),
{
    proof {
        lemma_utf8_holds_zero(s@);
    }
    let bytes = s.as_bytes();
    let mut out: Vec<u8> = Vec::with_capacity(bytes.len());
    let mut i: usize = 0;
    while i < bytes.len()
        invariant
            i <= bytes@.len(),
            bytes@ == encode_utf8(s@),
            out@ == bytes@.take(i as int),
            forall|k: int| 0 <= k < i ==> bytes@[k] != 0,
            bytes@.contains(0) <==> s@.contains('\0'),
        decreases bytes@.len() - i,
    {
        if bytes[i] == 0 {
            return None;
        }
        out.push(bytes[i]);
        i += 1;
    }
    out.push(0);
    Some(out)
}

} // verus!
