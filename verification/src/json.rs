//! The type `json`, as a parsed value.
use vstd::prelude::*;

use crate::backend::{DatumError, JSONOID, Progress, Reply, Request};
use crate::codec::{
    TEXT_DEPTH, decode_slice, encode_text, json_text, reads_slice_back, slice_value,
};
use crate::tree::{Tree, text_exact, tree};
use crate::varlena::{NewDatum, new_text_datum, plain_text_datum};

verus! {

/// A `json` value from PostgreSQL.
#[derive(Debug)]
pub struct Json(pub serde_json::Value);

impl View for Json {
    type V = Tree;

    open spec fn view(&self) -> Tree {
        tree(self.0)
    }
}

/// Where the conversion of a datum to [`Json`] stands.
#[derive(Debug)]
pub enum JsonState {
    /// Waits for the detoasted varlena.
    Detoasting { varlena: usize },
}

/// How far a conversion to [`Json`] has come.
pub type JsonProgress = Progress<JsonState, Json>;

/// What a conversion to [`Json`] comes to after a reply.
pub type JsonResult = Result<JsonProgress, DatumError>;

/// What the conversion does with a reply: the data of the varlena are parsed.
pub open spec fn json_step(s: JsonState, reply: Reply, r: JsonResult) -> bool {
    match reply {
        Reply::Varlena(d) => {
            &&& reads_slice_back(d.data@)
            &&& match slice_value(d.data@) {
                Some(t) => {
                    &&& r matches Ok(JsonProgress::Done(Some(json)))
                    &&& json@ == t
                    &&& text_exact(t, TEXT_DEPTH as nat)
                },
                None => r == JsonResult::Err(DatumError::NotJson),
            }
        },
        _ => r == JsonResult::Err(DatumError::UnexpectedReply),
    }
}

impl JsonState {
    /// Ends the conversion, given what the parser made of the data.
    pub fn parsed(value: Option<serde_json::Value>) -> (r: JsonResult)
        ensures
            r == match value {
                Some(v) => Ok(JsonProgress::Done(Some(Json(v)))),
                None => Err(DatumError::NotJson),
            },
    {
        match value {
            Some(v) => Ok(JsonProgress::Done(Some(Json(v)))),
            None => Err(DatumError::NotJson),
        }
    }

    /// Goes on with the backend's reply.
    pub fn resume(self, reply: Reply) -> (r: JsonResult)
        ensures
            json_step(self, reply, r),
    {
        match reply {
            Reply::Varlena(d) => JsonState::parsed(decode_slice(d.data.as_slice())),
            _ => Err(DatumError::UnexpectedReply),
        }
    }
}

impl Json {
    /// Starts the conversion of a datum. SQL NULL needs nothing of the backend.
    pub fn from_polymorphic_datum(datum: usize, is_null: bool, _typoid: u32) -> (r: JsonProgress)
        ensures
            is_null ==> r == JsonProgress::Done(None),
            !is_null ==> r == JsonProgress::Ask(
                Request::Detoast(datum),
                JsonState::Detoasting { varlena: datum },
            ),
    {
        if is_null {
            JsonProgress::Done(None)
        } else {
            JsonProgress::Ask(Request::Detoast(datum), JsonState::Detoasting { varlena: datum })
        }
    }

    /// The datum of a value: a `text` varlena with its compact JSON; `None` where that is
    /// too long for a varlena.
    pub fn into_datum(self) -> (r: Option<NewDatum>)
        ensures
            plain_text_datum(json_text(self@), r),
    {
        new_text_datum(encode_text(&self.0))
    }

    /// The type of the datum.
    pub fn type_oid() -> (r: u32)
        ensures
            r == JSONOID,
    {
        JSONOID
    }

    /// The name of the type in SQL, as an argument and as a result.
    pub fn sql_name() -> (r: &'static str)
        ensures
            r@ == "json"@,
    {
        "json"
    }

    /// What a serializer is given for the value.
    pub fn serialize(&self) -> (r: &serde_json::Value)
        ensures
            *r == self.0,
    {
        &self.0
    }
}

} // verus!
