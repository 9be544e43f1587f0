use pgjson::backend::{BackendText, DatumError, Detoasted, Progress, Reply, Request};
use pgjson::bench::bench_jsonb_extra_text;
use pgjson::json::JsonState;
use pgjson::json_b::{JsonBState, jsonb_from_text, text_datum};
use pgjson::json_string::JsonStringState;
use pgjson::varlena::NewDatum;
use pgjson::{Json, JsonB, JsonString};
use serde_json::Value;

fn value(text: &str) -> Value {
    serde_json::from_str(text).unwrap()
}

fn varlena(address: usize, data: &[u8]) -> Reply {
    Reply::Varlena(Detoasted { address, data: data.to_vec() })
}

fn text(address: usize, bytes: &[u8]) -> Reply {
    Reply::Text(BackendText { address, bytes: bytes.to_vec() })
}

#[test]
fn null_asks_nothing() {
    assert!(matches!(Json::from_polymorphic_datum(16, true, 114), Progress::Done(None)));
    assert!(matches!(JsonB::from_polymorphic_datum(16, true, 3802), Progress::Done(None)));
    assert!(matches!(JsonString::from_polymorphic_datum(16, true, 114), Progress::Done(None)));
}

#[test]
fn json_is_parsed_from_its_varlena() {
    let state = match Json::from_polymorphic_datum(16, false, 114) {
        Progress::Ask(Request::Detoast(16), state) => state,
        other => panic!("{:?}", other),
    };
    match state.resume(varlena(32, b" {\"a\": [1, 2.50, null]} ")) {
        Ok(Progress::Done(Some(json))) => {
            assert_eq!(json.0, value("{\"a\":[1,2.50,null]}"));
            assert_eq!(json.0["a"][1].to_string(), "2.50");
        }
        other => panic!("{:?}", other),
    }
}

#[test]
fn json_rejects_what_is_not_json() {
    let state = JsonState::Detoasting { varlena: 16 };
    match state.resume(varlena(16, b"{\"a\": }")) {
        Err(e) => {
            assert_eq!(e, DatumError::NotJson);
            assert_eq!(e.message(), "datum must refer to a valid json varlena");
        }
        other => panic!("{:?}", other),
    }
    assert!(matches!(JsonState::parsed(None), Err(DatumError::NotJson)));
    match JsonState::parsed(Some(value("7"))) {
        Ok(Progress::Done(Some(json))) => assert_eq!(json.0, value("7")),
        other => panic!("{:?}", other),
    }
}

#[test]
fn json_datum_is_compact_text() {
    match Json(value("{ \"b\" : 1, \"a\" : \"x\\u0000y\" }")).into_datum() {
        Some(NewDatum::Text(s)) => assert_eq!(s, "{\"b\":1,\"a\":\"x\\u0000y\"}"),
        other => panic!("{:?}", other),
    }
}

#[test]
fn json_datum_reads_back() {
    let given = value("{\"k\":[true,-0,1e+3,\"\\n\\\"\",{}]}");
    let stored = match Json(given.clone()).into_datum() {
        Some(NewDatum::Text(s)) => s,
        other => panic!("{:?}", other),
    };
    let state = JsonState::Detoasting { varlena: 8 };
    match state.resume(varlena(8, stored.as_bytes())) {
        Ok(Progress::Done(Some(json))) => assert_eq!(json.0, given),
        other => panic!("{:?}", other),
    }
}

#[test]
fn json_read_store_read() {
    let read = |bytes: &[u8]| {
        let state = JsonState::Detoasting { varlena: 16 };
        match state.resume(varlena(16, bytes)) {
            Ok(Progress::Done(Some(json))) => json,
            other => panic!("{:?}", other),
        }
    };
    let first = read(b"[ 1E2, {\"b\": 0.0, \"a\": \"\\u20ac\"} ]");
    let copy = first.0.clone();
    let stored = match first.into_datum() {
        Some(NewDatum::Text(s)) => s,
        other => panic!("{:?}", other),
    };
    assert_eq!(stored, "[1e+2,{\"b\":0.0,\"a\":\"\u{20ac}\"}]");
    assert_eq!(read(stored.as_bytes()).0, copy);
}

#[test]
fn jsonb_frees_text_and_copy() {
    let state = match JsonB::from_polymorphic_datum(16, false, 3802) {
        Progress::Ask(Request::DetoastPacked(16), state) => state,
        other => panic!("{:?}", other),
    };
    let state = match state.resume(varlena(32, &[4, 0, 0, 32])) {
        Ok(Progress::Ask(Request::JsonbOut(32), state)) => state,
        other => panic!("{:?}", other),
    };
    let state = match state.resume(text(64, b"{\"a\": 1}")) {
        Ok(Progress::Ask(Request::Free(64), state)) => state,
        other => panic!("{:?}", other),
    };
    let state = match state.resume(Reply::Freed) {
        Ok(Progress::Ask(Request::Free(32), state)) => state,
        other => panic!("{:?}", other),
    };
    match state.resume(Reply::Freed) {
        Ok(Progress::Done(Some(json))) => assert_eq!(json.0, value("{\"a\":1}")),
        other => panic!("{:?}", other),
    }
}

#[test]
fn jsonb_keeps_the_callers_datum() {
    let state = JsonBState::Printing { varlena: 16, detoasted: 16 };
    let state = match state.resume(text(64, b"[]")) {
        Ok(Progress::Ask(Request::Free(64), state)) => state,
        other => panic!("{:?}", other),
    };
    match state.resume(Reply::Freed) {
        Ok(Progress::Done(Some(json))) => assert_eq!(json.0, value("[]")),
        other => panic!("{:?}", other),
    }
}

#[test]
fn jsonb_errors() {
    let printing = || JsonBState::Printing { varlena: 16, detoasted: 16 };
    let cases = [
        (Reply::Null, DatumError::NotJsonb, "datum must refer to a valid jsonb varlena"),
        (
            text(64, &[0xff]),
            DatumError::TextNotUtf8,
            "a text version of the jsonb must be valid utf-8",
        ),
        (
            text(64, b"nul"),
            DatumError::TextNotJson,
            "a text version of jsonb must be a valid json",
        ),
        (
            Reply::Freed,
            DatumError::UnexpectedReply,
            "the backend's reply does not answer the request",
        ),
    ];
    for (reply, error, message) in cases {
        match printing().resume(reply) {
            Err(e) => {
                assert_eq!(e, error);
                assert_eq!(e.message(), message);
            }
            other => panic!("{:?}", other),
        }
    }
}

#[test]
fn jsonb_steps_on_given_results() {
    match JsonBState::text_read(16, 32, 64, Ok(value("1"))) {
        Ok(Progress::Ask(
            Request::Free(64),
            JsonBState::FreeingText { varlena: 16, detoasted: 32, value: json },
        )) => assert_eq!(json.0, value("1")),
        other => panic!("{:?}", other),
    }
    assert!(matches!(
        JsonBState::text_read(16, 32, 64, Err(DatumError::TextNotJson)),
        Err(DatumError::TextNotJson)
    ));
    let step = JsonBState::binary_read(16, 32, Err("why".to_string()));
    assert_eq!(
        step.warning.unwrap(),
        "jsonb binary parse failed, falling back to text parse: why"
    );
    assert!(matches!(
        step.next,
        Progress::Ask(
            Request::JsonbOut(32),
            JsonBState::Printing { varlena: 16, detoasted: 32 }
        )
    ));
    let step = JsonBState::binary_read(16, 32, Ok(value("1")));
    assert_eq!(step.warning, None);
    assert!(matches!(
        step.next,
        Progress::Ask(Request::Free(32), JsonBState::FreeingCopy { .. })
    ));
    let step = JsonBState::binary_read(16, 16, Ok(value("1")));
    assert!(matches!(step.next, Progress::Done(Some(_))));
}

#[test]
fn jsonb_datum_is_made_of_text() {
    match JsonB(value("{\"a\": [1, \"\\u0000\"]}")).into_datum() {
        Ok(NewDatum::JsonbIn(bytes)) => assert_eq!(bytes, b"{\"a\":[1,\"\\u0000\"]}\0".to_vec()),
        other => panic!("{:?}", other),
    }
    assert!(matches!(text_datum("a\0b"), Err(DatumError::TextHoldsNul)));
    assert_eq!(
        DatumError::TextHoldsNul.message(),
        "a text version of jsonb must contain no null terminator"
    );
}

#[test]
fn jsonb_number_with_nul_is_refused() {
    let number = serde_json::Number::from_string_unchecked("1\0".to_string());
    let stored = JsonB(Value::Array(vec![Value::Number(number)])).into_datum();
    assert!(matches!(stored, Err(DatumError::TextHoldsNul)));
}

#[test]
fn extra_text_changes_nothing() {
    let state = JsonBState::Printing { varlena: 16, detoasted: 16 };
    let json = match state.resume(text(64, b"{\"b\": 1e5, \"a\": -0.0}")) {
        Ok(Progress::Ask(_, JsonBState::FreeingText { value, .. })) => value,
        other => panic!("{:?}", other),
    };
    let before = json.0.to_string();
    assert_eq!(before, "{\"b\":1e+5,\"a\":-0.0}");
    assert_eq!(bench_jsonb_extra_text(json).unwrap().0.to_string(), before);
}

#[test]
fn jsonb_read_store_read() {
    let read = |bytes: &[u8]| {
        let state = JsonBState::Printing { varlena: 16, detoasted: 16 };
        match state.resume(text(64, bytes)) {
            Ok(Progress::Ask(_, JsonBState::FreeingText { value, .. })) => value,
            other => panic!("{:?}", other),
        }
    };
    let first = read(b"{\"z\": 1E5, \"a\": [0.10, \"\\u00e9\"]}");
    let copy = first.0.clone();
    assert_eq!(copy["z"].to_string(), "1e+5");
    let mut stored = match first.into_datum() {
        Ok(NewDatum::JsonbIn(bytes)) => bytes,
        other => panic!("{:?}", other),
    };
    assert_eq!(stored.pop(), Some(0));
    assert_eq!(read(&stored).0, copy);
}

#[test]
fn jsonb_survives_other_spacing_and_order() {
    let given = value("{\"bb\":[1,{\"y\":null,\"x\":true}],\"a\":\"\"}");
    let handed = match JsonB(given.clone()).into_datum() {
        Ok(NewDatum::JsonbIn(bytes)) => bytes,
        other => panic!("{:?}", other),
    };
    assert_eq!(handed, b"{\"bb\":[1,{\"y\":null,\"x\":true}],\"a\":\"\"}\0".to_vec());
    let printed = b"{\"a\": \"\", \"bb\": [1, {\"x\": true, \"y\": null}]}";
    assert_eq!(jsonb_from_text(printed).unwrap(), given);
    let state = JsonBState::Printing { varlena: 16, detoasted: 16 };
    let state = match state.resume(text(64, printed)) {
        Ok(Progress::Ask(Request::Free(64), state)) => state,
        other => panic!("{:?}", other),
    };
    match state.resume(Reply::Freed) {
        Ok(Progress::Done(Some(json))) => assert_eq!(json.0, given),
        other => panic!("{:?}", other),
    }
}

#[test]
fn json_string_keeps_the_text() {
    let state = match JsonString::from_polymorphic_datum(16, false, 114) {
        Progress::Ask(Request::DetoastPacked(16), state) => state,
        other => panic!("{:?}", other),
    };
    match state.resume(varlena(16, "{\"é\": 1 }".as_bytes())) {
        Ok(Progress::Done(Some(s))) => assert_eq!(s.0, "{\"é\": 1 }"),
        other => panic!("{:?}", other),
    }
}

#[test]
fn json_string_frees_the_copy() {
    let state = JsonStringState::Detoasting { varlena: 16 };
    let state = match state.resume(varlena(48, b"[ ]")) {
        Ok(Progress::Ask(Request::Free(48), state)) => state,
        other => panic!("{:?}", other),
    };
    match state.resume(Reply::Freed) {
        Ok(Progress::Done(Some(s))) => assert_eq!(s.0, "[ ]"),
        other => panic!("{:?}", other),
    }
}

#[test]
fn json_string_errors() {
    let state = JsonStringState::Detoasting { varlena: 16 };
    match state.resume(varlena(48, &[0xc3])) {
        Err(e) => {
            assert_eq!(e, DatumError::NotUtf8);
            assert_eq!(e.message(), "datum must refer to valid utf-8 text");
        }
        other => panic!("{:?}", other),
    }
    let state = JsonStringState::Detoasting { varlena: 16 };
    assert!(matches!(state.resume(Reply::Null), Err(DatumError::UnexpectedReply)));
}

#[test]
fn json_string_datum_reads_back() {
    let stored = match JsonString("\"\u{1F600}\0\"".to_string()).into_datum() {
        Some(NewDatum::Text(s)) => s,
        other => panic!("{:?}", other),
    };
    let state = JsonStringState::Detoasting { varlena: 16 };
    match state.resume(varlena(16, stored.as_bytes())) {
        Ok(Progress::Done(Some(s))) => assert_eq!(s.0, "\"\u{1F600}\0\""),
        other => panic!("{:?}", other),
    }
}

#[test]
fn long_texts_become_no_datum() {
    // 0x3fff_fffb bytes and the header make 0x3fff_ffff, the first size that is refused.
    let text = String::from_utf8(vec![0u8; 0x3fff_fffb]).unwrap();
    assert!(JsonString(text).into_datum().is_none());
    let text = String::from_utf8(vec![0u8; 0x3fff_fffa]).unwrap();
    assert!(matches!(JsonString(text).into_datum(), Some(NewDatum::Text(_))));
}

#[test]
fn types_and_names() {
    assert_eq!(Json::type_oid(), 114);
    assert_eq!(JsonString::type_oid(), 114);
    assert_eq!(JsonB::type_oid(), 3802);
    assert_eq!(Json::sql_name(), "json");
    assert_eq!(JsonB::sql_name(), "jsonb");
}

#[test]
fn serializers_get_the_value() {
    assert_eq!(*Json(value("[1]")).serialize(), value("[1]"));
    assert_eq!(*JsonB(value("{}")).serialize(), value("{}"));
    assert_eq!(JsonString("[1]".to_string()).serialize(), Value::String("[1]".to_string()));
}
