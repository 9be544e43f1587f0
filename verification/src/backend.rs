//! What a conversion asks of the PostgreSQL backend, and what it gets back.
//!
//! A conversion never touches backend memory itself. It answers with the next
//! [`Request`] and the state in which it waits for the [`Reply`].
use vstd::prelude::*;

verus! {

/// The object identifier of the type `json`.
pub const JSONOID: u32 = 114;

/// The object identifier of the type `jsonb`.
pub const JSONBOID: u32 = 3802;

/// One call into the backend. Pointers are given by their address.
#[derive(Clone, Copy, Debug, PartialEq, Eq, Structural)]
pub enum Request {
    /// `pg_detoast_datum`: answered by [`Reply::Varlena`].
    Detoast(usize),
    /// `pg_detoast_datum_packed`: answered by [`Reply::Varlena`].
    DetoastPacked(usize),
    /// `jsonb_out`: answered by [`Reply::Text`] or [`Reply::Null`].
    JsonbOut(usize),
    /// `pfree`: answered by [`Reply::Freed`].
    Free(usize),
}

/// A varlena that needs no further detoasting: where it lies, and its data without
/// the header.
#[derive(Debug)]
pub struct Detoasted {
    pub address: usize,
    pub data: Vec<u8>,
}

/// A C string that the backend allocated: where it lies, and its bytes without the
/// terminator.
#[derive(Debug)]
pub struct BackendText {
    pub address: usize,
    pub bytes: Vec<u8>,
}

/// The answer to a [`Request`].
#[derive(Debug)]
pub enum Reply {
    Varlena(Detoasted),
    Text(BackendText),
    /// The function returned SQL NULL.
    Null,
    Freed,
}

/// How far a conversion has come: it waits, in a state `S`, for the answer to a
/// request, or it has ended. It ends with `None` for SQL NULL.
#[derive(Debug)]
pub enum Progress<S, T> {
    Ask(Request, S),
    Done(Option<T>),
}

/// Why a conversion stopped without a result.
#[derive(Clone, Copy, Debug, PartialEq, Eq, Structural)]
pub enum DatumError {
    /// The data of a `json` datum are not JSON.
    NotJson,
    /// The data of a `json` datum are not UTF-8.
    NotUtf8,
    /// `jsonb_out` gave no text.
    NotJsonb,
    /// The text that `jsonb_out` gave is not UTF-8.
    TextNotUtf8,
    /// The text that `jsonb_out` gave is not JSON.
    TextNotJson,
    /// The text for `jsonb_in` holds a NUL character.
    TextHoldsNul,
    /// The reply does not answer the request.
    UnexpectedReply,
}

/// What a user is told about an error.
pub open spec fn error_message(e: DatumError) -> Seq<char> {
    match e {
        DatumError::NotJson => "datum must refer to a valid json varlena"@,
        DatumError::NotUtf8 => "datum must refer to valid utf-8 text"@,
        DatumError::NotJsonb => "datum must refer to a valid jsonb varlena"@,
        DatumError::TextNotUtf8 => "a text version of the jsonb must be valid utf-8"@,
        DatumError::TextNotJson => "a text version of jsonb must be a valid json"@,
        DatumError::TextHoldsNul => "a text version of jsonb must contain no null terminator"@,
        DatumError::UnexpectedReply => "the backend's reply does not answer the request"@,
    }
}

impl DatumError {
    /// What a user is told about the error.
    pub fn message(&self) -> (r: &'static str)
        ensures
            r@ == error_message(*self),
    {
        match self {
            DatumError::NotJson => "datum must refer to a valid json varlena",
            DatumError::NotUtf8 => "datum must refer to valid utf-8 text",
            DatumError::NotJsonb => "datum must refer to a valid jsonb varlena",
            DatumError::TextNotUtf8 => "a text version of the jsonb must be valid utf-8",
            DatumError::TextNotJson => "a text version of jsonb must be a valid json",
            DatumError::TextHoldsNul => "a text version of jsonb must contain no null terminator",
            DatumError::UnexpectedReply => "the backend's reply does not answer the request",
        }
    }
}

} // verus!
