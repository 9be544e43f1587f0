//! The type `json`, as the text that PostgreSQL keeps.
use vstd::prelude::*;
use vstd::utf8::{decode_utf8, valid_utf8};

use crate::backend::{DatumError, JSONOID, Progress, Reply, Request};
use crate::codec::{decode_utf8_text, string_value};
use crate::tree::{Tree, tree};
use crate::varlena::{NewDatum, new_text_datum, plain_text_datum};

verus! {

/// A `json` value from PostgreSQL, as a copy of its text that Rust owns.
#[derive(Debug)]
pub struct JsonString(pub String);

impl View for JsonString {
    type V = Seq<char>;

    open spec fn view(&self) -> Seq<char> {
        self.0@
    }
}

/// Where the conversion of a datum to [`JsonString`] stands. `varlena` is the datum
/// that the caller gave.
#[derive(Debug)]
pub enum JsonStringState {
    /// Waits for the detoasted varlena.
    Detoasting { varlena: usize },
    /// Waits until the copy is freed.
    FreeingCopy { value: JsonString },
}

/// How far a conversion to [`JsonString`] has come.
pub type JsonStringProgress = Progress<JsonStringState, JsonString>;

/// What a conversion to [`JsonString`] comes to after a reply.
pub type JsonStringResult = Result<JsonStringProgress, DatumError>;

/// What the conversion does with a reply: the data are taken as UTF-8 text, and a
/// copy that the backend made is freed; the caller's own datum never is.
pub open spec fn json_string_step(s: JsonStringState, reply: Reply, r: JsonStringResult) -> bool {
    match (s, reply) {
        (JsonStringState::Detoasting { varlena }, Reply::Varlena(d)) => {
            if !valid_utf8(d.data@) {
                r == JsonStringResult::Err(DatumError::NotUtf8)
            } else if d.address != varlena {
                &&& r matches Ok(JsonStringProgress::Ask(ask, next))
                &&& ask == Request::Free(d.address)
                &&& next matches JsonStringState::FreeingCopy { value }
                &&& value@ == decode_utf8(d.data@)
            } else {
                &&& r matches Ok(JsonStringProgress::Done(Some(value)))
                &&& value@ == decode_utf8(d.data@)
            }
        },
        (JsonStringState::FreeingCopy { value }, Reply::Freed) => r == JsonStringResult::Ok(
            JsonStringProgress::Done(Some(value)),
        ),
        _ => r == JsonStringResult::Err(DatumError::UnexpectedReply),
    }
}

impl JsonStringState {
    /// Goes on with the backend's reply.
    pub fn resume(self, reply: Reply) -> (r: JsonStringResult)
        ensures
            json_string_step(self, reply, r),
    {
        match (self, reply) {
            (JsonStringState::Detoasting { varlena }, Reply::Varlena(d)) => {
                match decode_utf8_text(d.data.as_slice()) {
                    None => Err(DatumError::NotUtf8),
                    Some(text) => {
                        let value = JsonString(text);
                        if d.address != varlena {
                            Ok(
                                JsonStringProgress::Ask(
                                    Request::Free(d.address),
                                    JsonStringState::FreeingCopy { value },
                                ),
                            )
                        } else {
                            Ok(JsonStringProgress::Done(Some(value)))
                        }
                    },
                }
            },
            (JsonStringState::FreeingCopy { value }, Reply::Freed) => Ok(
                JsonStringProgress::Done(Some(value)),
            ),
            _ => Err(DatumError::UnexpectedReply),
        }
    }
}

impl JsonString {
    /// Starts the conversion of a datum. SQL NULL needs nothing of the backend.
    pub fn from_polymorphic_datum(datum: usize, is_null: bool, _typoid: u32) -> (r:
        JsonStringProgress)
        ensures
            is_null ==> r == JsonStringProgress::Done(None),
            !is_null ==> r == JsonStringProgress::Ask(
                Request::DetoastPacked(datum),
                JsonStringState::Detoasting { varlena: datum },
            ),
    {
        if is_null {
            JsonStringProgress::Done(None)
        } else {
            JsonStringProgress::Ask(
                Request::DetoastPacked(datum),
                JsonStringState::Detoasting { varlena: datum },
            )
        }
    }

    /// The datum of a value: a `text` varlena with its text; `None` where that is too long
    /// for a varlena.
    pub fn into_datum(self) -> (r: Option<NewDatum>)
        ensures
            plain_text_datum(self@, r),
    {
        new_text_datum(self.0)
    }

    /// The type of the datum.
    pub fn type_oid() -> (r: u32)
        ensures
            r == JSONOID,
    {
        JSONOID
    }

    /// What a serializer is given for the value: a JSON string that holds the text.
    pub fn serialize(&self) -> (r: serde_json::Value)
        ensures
            tree(r) == Tree::Text(self@),
    {
        string_value(self.0.as_str())
    }
}

} // verus!
