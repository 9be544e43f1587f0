//! The functions whose cost the benchmarks compare.
use vstd::prelude::*;

use crate::codec::{TEXT_DEPTH, json_text, roundtrip_text, text_value};
use crate::json_b::JsonB;
use crate::tree::text_exact;

verus! {

/// Hands a value back: around it lies the cost of one decoding and one encoding.
pub fn bench_jsonb_standard(json: JsonB) -> (r: JsonB)
    ensures
        r == json,
{
    json
}

/// What becomes of a value on the way through its text. One that JSON text keeps exactly
/// comes back as it was.
pub open spec fn extra_text(json: JsonB, r: Option<JsonB>) -> bool {
    &&& r is Some <==> text_value(json_text(json@)) is Some
    &&& r is Some ==> text_value(json_text(json@)) == Some(r->0@)
    &&& text_exact(json@, TEXT_DEPTH as nat) ==> r is Some && r->0@ == json@
}

/// Prints a value and reads the text again, on top of what
/// [`bench_jsonb_standard`] costs; `None` where the parser does not take what was
/// printed.
pub fn bench_jsonb_extra_text(json: JsonB) -> (r: Option<JsonB>)
    ensures
        extra_text(json, r),
{
    match roundtrip_text(&json.0) {
        Some(value) => Some(JsonB(value)),
        None => None,
    }
}

} // verus!
