//! The type `jsonb`, as a parsed value.
//!
//! The value travels as text: `jsonb_out` prints a datum, `jsonb_in` makes one.
//! Datums that hold the binary form of the `jsonb` crate instead are this library's
//! own; [`JsonB::into_binary_datum`] makes them, [`JsonBState::resume_binary`] reads
//! them, and both fall back on text; the reader warns of it.
use vstd::prelude::*;
use vstd::string::StringExecFns;
use vstd::utf8::{decode_utf8, valid_utf8};

use crate::backend::{DatumError, Detoasted, JSONBOID, Progress, Reply, Request};
use crate::codec::{
    ENTRY_LIMIT, TEXT_DEPTH, binary_encoding, binary_readable, binary_value, decode_binary,
    decode_text, decode_utf8_text, encode_binary, encode_text, is_turned_away, json_text,
    reads_binary_back, reads_text_back, refusal, text_value, turned_away,
};
use crate::tree::{Tree, numbers_free_of_nul, text_exact, tree};
use crate::varlena::{NewDatum, c_string, fits_varlena, jsonb_from_binary, to_c_string};

verus! {

/// A `jsonb` value from PostgreSQL.
#[derive(Debug)]
pub struct JsonB(pub serde_json::Value);

impl View for JsonB {
    type V = Tree;

    open spec fn view(&self) -> Tree {
        tree(self.0)
    }
}

/// Where the conversion of a datum to [`JsonB`] stands. `varlena` is the datum that
/// the caller gave, `detoasted` what the backend made of it: the same address, or a
/// copy.
#[derive(Debug)]
pub enum JsonBState {
    /// Waits for the detoasted varlena.
    Detoasting { varlena: usize },
    /// Waits for the text of the datum.
    Printing { varlena: usize, detoasted: usize },
    /// Waits until the text is freed.
    FreeingText { varlena: usize, detoasted: usize, value: JsonB },
    /// Waits until the copy is freed.
    FreeingCopy { value: JsonB },
}

/// How far a conversion to [`JsonB`] has come.
pub type JsonBProgress = Progress<JsonBState, JsonB>;

/// What a conversion to [`JsonB`] comes to after a reply.
pub type JsonBResult = Result<JsonBProgress, DatumError>;

/// The text version of a `jsonb`, if its bytes are UTF-8 and JSON.
pub open spec fn text_version(bytes: Seq<u8>) -> Result<Tree, DatumError> {
    if !valid_utf8(bytes) {
        Err(DatumError::TextNotUtf8)
    } else {
        match text_value(decode_utf8(bytes)) {
            Some(t) => Ok(t),
            None => Err(DatumError::TextNotJson),
        }
    }
}

/// The end of a conversion: a copy is freed first, the caller's own datum never is.
pub open spec fn released(varlena: usize, detoasted: usize, value: JsonB) -> JsonBProgress {
    if detoasted != varlena {
        JsonBProgress::Ask(Request::Free(detoasted), JsonBState::FreeingCopy { value })
    } else {
        JsonBProgress::Done(Some(value))
    }
}

/// What the conversion does with a reply.
pub open spec fn jsonb_step(s: JsonBState, reply: Reply, r: JsonBResult) -> bool {
    match (s, reply) {
        (JsonBState::Detoasting { varlena }, Reply::Varlena(d)) => r == JsonBResult::Ok(
            JsonBProgress::Ask(
                Request::JsonbOut(d.address),
                JsonBState::Printing { varlena, detoasted: d.address },
            ),
        ),
        (JsonBState::Printing { .. }, Reply::Null) => r == JsonBResult::Err(DatumError::NotJsonb),
        (JsonBState::Printing { varlena, detoasted }, Reply::Text(text)) => {
            &&& valid_utf8(text.bytes@) ==> reads_text_back(decode_utf8(text.bytes@))
            &&& match text_version(text.bytes@) {
                Ok(t) => {
                    &&& r matches Ok(JsonBProgress::Ask(ask, next))
                    &&& ask == Request::Free(text.address)
                    &&& next matches JsonBState::FreeingText { varlena: v, detoasted: d, value }
                    &&& v == varlena
                    &&& d == detoasted
                    &&& value@ == t
                    &&& text_exact(t, TEXT_DEPTH as nat)
                },
                Err(e) => r == JsonBResult::Err(e),
            }
        },
        (JsonBState::FreeingText { varlena, detoasted, value }, Reply::Freed) => {
            r == JsonBResult::Ok(released(varlena, detoasted, value))
        },
        (JsonBState::FreeingCopy { value }, Reply::Freed) => r == JsonBResult::Ok(
            JsonBProgress::Done(Some(value)),
        ),
        _ => r == JsonBResult::Err(DatumError::UnexpectedReply),
    }
}

/// What follows on a try to read data in the binary form.
#[derive(Debug)]
pub struct BinaryStep {
    /// What the user is warned of before anything else is done.
    pub warning: Option<String>,
    pub next: JsonBProgress,
}

/// The warning where data cannot be read in the binary form.
pub open spec fn fallback_warning(error: Seq<char>) -> Seq<char> {
    "jsonb binary parse failed, falling back to text parse: "@ + error
}

/// What the conversion does with detoasted data that may be in the binary form: what
/// cannot be read there is warned of and asked for as text.
pub open spec fn jsonb_binary_step(
    varlena: usize,
    detoasted: usize,
    data: Seq<u8>,
    r: BinaryStep,
) -> bool {
    &&& reads_binary_back(data)
    &&& turned_away(data) ==> binary_value(data) == Err::<Tree, _>(refusal(data))
    &&& match binary_value(data) {
        Ok(t) => {
            &&& r.warning is None
            &&& exists|value: JsonB|
                value@ == t && r.next == #[trigger] released(varlena, detoasted, value)
        },
        Err(e) => {
            &&& r.warning matches Some(warning)
            &&& warning@ == fallback_warning(e)
            &&& r.next == JsonBProgress::Ask(
                Request::JsonbOut(detoasted),
                JsonBState::Printing { varlena, detoasted },
            )
        },
    }
}

/// What comes of reading the text version of a `jsonb`.
pub open spec fn reads_text(bytes: Seq<u8>, r: Result<serde_json::Value, DatumError>) -> bool {
    &&& valid_utf8(bytes) ==> reads_text_back(decode_utf8(bytes))
    &&& match text_version(bytes) {
        Ok(t) => r matches Ok(value) && tree(value) == t && text_exact(t, TEXT_DEPTH as nat),
        Err(e) => r == Err::<serde_json::Value, _>(e),
    }
}

/// Reads the text version of a `jsonb`.
pub fn jsonb_from_text(bytes: &[u8]) -> (r: Result<serde_json::Value, DatumError>)
    ensures
        reads_text(bytes@, r),
{
    match decode_utf8_text(bytes) {
        None => Err(DatumError::TextNotUtf8),
        Some(text) => match decode_text(text.as_str()) {
            None => Err(DatumError::TextNotJson),
            Some(value) => Ok(value),
        },
    }
}

impl JsonBState {
    /// Ends a conversion: frees the copy, if the backend made one.
    fn release(varlena: usize, detoasted: usize, value: JsonB) -> (r: JsonBProgress)
        ensures
            r == released(varlena, detoasted, value),
    {
        if detoasted != varlena {
            JsonBProgress::Ask(Request::Free(detoasted), JsonBState::FreeingCopy { value })
        } else {
            JsonBProgress::Done(Some(value))
        }
    }

    /// Goes on from [`JsonBState::Printing`], given what became of the text at
    /// `text`: the value that was read from it, or why there is none.
    pub fn text_read(
        varlena: usize,
        detoasted: usize,
        text: usize,
        value: Result<serde_json::Value, DatumError>,
    ) -> (r: JsonBResult)
        ensures
            r == match value {
                Ok(v) => Ok(
                    JsonBProgress::Ask(
                        Request::Free(text),
                        JsonBState::FreeingText { varlena, detoasted, value: JsonB(v) },
                    ),
                ),
                Err(e) => Err(e),
            },
    {
        match value {
            Ok(v) => Ok(
                JsonBProgress::Ask(
                    Request::Free(text),
                    JsonBState::FreeingText { varlena, detoasted, value: JsonB(v) },
                ),
            ),
            Err(e) => Err(e),
        }
    }

    /// Goes on after a try to read the data in the binary form: without a value the
    /// user is warned and the text is asked for.
    pub fn binary_read(
        varlena: usize,
        detoasted: usize,
        value: Result<serde_json::Value, String>,
    ) -> (r: BinaryStep)
        ensures
            match value {
                Ok(v) => {
                    &&& r.warning is None
                    &&& r.next == released(varlena, detoasted, JsonB(v))
                },
                Err(e) => {
                    &&& r.warning matches Some(warning)
                    &&& warning@ == fallback_warning(e@)
                    &&& r.next == JsonBProgress::Ask(
                        Request::JsonbOut(detoasted),
                        JsonBState::Printing { varlena, detoasted },
                    )
                },
            },
    {
        match value {
            Ok(v) => BinaryStep {
                warning: None,
                next: JsonBState::release(varlena, detoasted, JsonB(v)),
            },
            Err(e) => {
                let mut warning =
                    "jsonb binary parse failed, falling back to text parse: ".to_owned();
                warning.append(e.as_str());
                BinaryStep {
                    warning: Some(warning),
                    next: JsonBProgress::Ask(
                        Request::JsonbOut(detoasted),
                        JsonBState::Printing { varlena, detoasted },
                    ),
                }
            },
        }
    }

    /// Goes on with the backend's reply.
    pub fn resume(self, reply: Reply) -> (r: JsonBResult)
        ensures
            jsonb_step(self, reply, r),
    {
        match (self, reply) {
            (JsonBState::Detoasting { varlena }, Reply::Varlena(d)) => Ok(
                JsonBProgress::Ask(
                    Request::JsonbOut(d.address),
                    JsonBState::Printing { varlena, detoasted: d.address },
                ),
            ),
            (JsonBState::Printing { .. }, Reply::Null) => Err(DatumError::NotJsonb),
            (JsonBState::Printing { varlena, detoasted }, Reply::Text(text)) => {
                JsonBState::text_read(
                    varlena,
                    detoasted,
                    text.address,
                    jsonb_from_text(text.bytes.as_slice()),
                )
            },
            (JsonBState::FreeingText { varlena, detoasted, value }, Reply::Freed) => Ok(
                JsonBState::release(varlena, detoasted, value),
            ),
            (JsonBState::FreeingCopy { value }, Reply::Freed) => Ok(
                JsonBProgress::Done(Some(value)),
            ),
            _ => Err(DatumError::UnexpectedReply),
        }
    }

    /// Goes on with a detoasted varlena that may hold the binary form, in place of
    /// [`JsonBState::resume`].
    pub fn resume_binary(varlena: usize, d: Detoasted) -> (r: BinaryStep)
        requires
            binary_readable(d.data@),
        ensures
            jsonb_binary_step(varlena, d.address, d.data@, r),
    {
        JsonBState::binary_read(varlena, d.address, decode_binary(d.data.as_slice()))
    }

    /// [`JsonBState::resume_binary`] for data of unknown origin; `None` where the decoder
    /// does not turn them away by their header, and they are not read.
    pub fn resume_foreign(varlena: usize, d: Detoasted) -> (r: Option<BinaryStep>)
        ensures
            r is Some <==> turned_away(d.data@),
            r is Some ==> jsonb_binary_step(varlena, d.address, d.data@, r->0),
    {
        if is_turned_away(d.data.as_slice()) {
            Some(JsonBState::resume_binary(varlena, d))
        } else {
            None
        }
    }
}

/// The datum that `jsonb_in` makes of a text.
pub open spec fn text_datum_spec(text: Seq<char>, r: Result<NewDatum, DatumError>) -> bool {
    if text.contains('\0') {
        r == Err::<NewDatum, _>(DatumError::TextHoldsNul)
    } else {
        r matches Ok(NewDatum::JsonbIn(bytes)) && bytes@ == c_string(text)
    }
}

/// The datum that is stored for a value: what `jsonb_in` makes of its compact JSON.
/// Only the text of a number could hold a NUL character. The text of a value that is
/// [`text_exact`] says what the value is.
pub open spec fn stored_as_text(json: JsonB, r: Result<NewDatum, DatumError>) -> bool {
    &&& text_datum_spec(json_text(json@), r)
    &&& numbers_free_of_nul(json@) ==> r is Ok
    &&& text_exact(json@, TEXT_DEPTH as nat) ==> text_value(json_text(json@)) == Some(json@)
}

/// The datum that is stored for a value in the binary form, or as text where that form
/// is too long for a varlena.
pub open spec fn stored_as_binary(json: JsonB, r: Result<NewDatum, DatumError>) -> bool {
    let bytes = binary_encoding(json@);
    if fits_varlena(bytes.len()) {
        r matches Ok(NewDatum::Varlena(v)) && v.wf() && v.data@ == bytes
    } else {
        stored_as_text(json, r)
    }
}

/// Asks for the datum that `jsonb_in` makes of a text.
pub fn text_datum(text: &str) -> (r: Result<NewDatum, DatumError>)
    ensures
        text_datum_spec(text@, r),
{
    match to_c_string(text) {
        Some(bytes) => Ok(NewDatum::JsonbIn(bytes)),
        None => Err(DatumError::TextHoldsNul),
    }
}

impl JsonB {
    /// Starts the conversion of a datum. SQL NULL needs nothing of the backend.
    pub fn from_polymorphic_datum(datum: usize, is_null: bool, _typoid: u32) -> (r: JsonBProgress)
        ensures
            is_null ==> r == JsonBProgress::Done(None),
            !is_null ==> r == JsonBProgress::Ask(
                Request::DetoastPacked(datum),
                JsonBState::Detoasting { varlena: datum },
            ),
    {
        if is_null {
            JsonBProgress::Done(None)
        } else {
            JsonBProgress::Ask(
                Request::DetoastPacked(datum),
                JsonBState::Detoasting { varlena: datum },
            )
        }
    }

    /// The datum of a value: what `jsonb_in` makes of its compact JSON. It fails only
    /// on a NUL character in the text of a number, and no parsed number holds one.
    pub fn into_datum(self) -> (r: Result<NewDatum, DatumError>)
        ensures
            stored_as_text(self, r),
    {
        let text = encode_text(&self.0);
        text_datum(text.as_str())
    }

    /// The datum of a value in the binary form, or, where that is too long for a
    /// varlena, the datum that [`JsonB::into_datum`] makes.
    pub fn into_binary_datum(self) -> (r: Result<NewDatum, DatumError>)
        ensures
            stored_as_binary(self, r),
    {
        let bytes = encode_binary(&self.0);
        match jsonb_from_binary(bytes.as_slice()) {
            Some(v) => Ok(NewDatum::Varlena(v)),
            None => self.into_datum(),
        }
    }

    /// Writes the value in the binary form and goes on as [`JsonBState::resume_binary`] does
    /// where that comes back from the backend, detoasted, at `address`; `None` where the
    /// bytes reach [`ENTRY_LIMIT`], and they are not read.
    pub fn try_reread_binary(&self, varlena: usize, address: usize) -> (r: Option<BinaryStep>)
        ensures
            r is Some <==> binary_encoding(self@).len() < ENTRY_LIMIT,
            r is Some ==> jsonb_binary_step(varlena, address, binary_encoding(self@), r->0),
    {
        let data = encode_binary(&self.0);
        if data.len() < ENTRY_LIMIT {
            Some(JsonBState::resume_binary(varlena, Detoasted { address, data }))
        } else {
            None
        }
    }

    /// The type of the datum.
    pub fn type_oid() -> (r: u32)
        ensures
            r == JSONBOID,
    {
        JSONBOID
    }

    /// The name of the type in SQL, as an argument and as a result.
    pub fn sql_name() -> (r: &'static str)
        ensures
            r@ == "jsonb"@,
    {
        "jsonb"
    }

    /// What a serializer is given for the value.
    pub fn serialize(&self) -> (r: &serde_json::Value)
        ensures
            *r == self.0,
    {
        &self.0
    }
}

} // verus!
