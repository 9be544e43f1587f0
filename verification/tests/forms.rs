use pgjson::JsonB;
use pgjson::backend::{Detoasted, Progress, Request};
use pgjson::bench::{bench_jsonb_extra_text, bench_jsonb_standard};
use pgjson::codec::{
    decode_binary, decode_slice, decode_text, decode_utf8_text, encode_binary, encode_text,
    encoded_sizes, is_turned_away, roundtrip_binary, roundtrip_text, string_value,
    try_roundtrip_binary,
};
use pgjson::json_b::{JsonBState, jsonb_from_text};
use pgjson::make::{Members, bool_value, number_value, repeated_value, string_pair};
use pgjson::payload::{large_jsonb, medium_jsonb, small_jsonb};
use pgjson::varlena::{NewDatum, jsonb_from_binary, to_c_string};
use serde_json::Value;

const MEDIUM: &str = "{\"user\":{\"id\":1234,\"name\":\"Bob\",\"email\":\"bob@example.com\",\
    \"roles\":[\"admin\",\"editor\"],\
    \"address\":{\"street\":\"123 Main St\",\"city\":\"Anytown\",\
    \"zip\":\"12345\",\"country\":\"US\"}},\
    \"settings\":{\"theme\":\"dark\",\"notifications\":true,\"language\":\"en-US\",\
    \"limits\":{\"max_uploads\":100,\"max_size_mb\":50}},\
    \"tags\":[\"premium\",\"verified\"],\"created_at\":\"2024-01-15T10:30:00Z\"}";

fn value(text: &str) -> Value {
    serde_json::from_str(text).unwrap()
}

fn nested(depth: usize) -> Value {
    let mut v = Value::Null;
    for _ in 0..depth {
        v = Value::Array(vec![v]);
    }
    v
}

#[test]
fn text_is_compact() {
    let v = value(" [ 1 , \"a\\tb\" , {\"k\" : null} ] ");
    assert_eq!(encode_text(&v), "[1,\"a\\tb\",{\"k\":null}]");
}

#[test]
fn text_is_parsed_or_not() {
    assert_eq!(decode_text("[1, 2]"), Some(value("[1,2]")));
    assert_eq!(decode_text("[1, 2"), None);
    assert_eq!(decode_slice(b"[1, 2]"), Some(value("[1,2]")));
    assert_eq!(decode_slice(&[b'"', 0xff, b'"']), None);
}

#[test]
fn text_keeps_values() {
    let texts =
        ["null", "-0", "18446744073709551616", "0.1000", "1e+400", "\"\\u0000\u{7f}\"", MEDIUM];
    for text in texts {
        let v = value(text);
        let read = roundtrip_text(&v).unwrap();
        assert_eq!(read, v);
        assert_eq!(encode_text(&read), text);
    }
}

#[test]
fn text_depth_ends_at_127() {
    assert_eq!(roundtrip_text(&nested(127)), Some(nested(127)));
    assert_eq!(roundtrip_text(&nested(128)), None);
    assert!(bench_jsonb_extra_text(JsonB(nested(128))).is_none());
}

#[test]
fn token_object_is_taken_for_a_number() {
    let mut map = serde_json::Map::new();
    map.insert("$serde_json::private::Number".to_string(), Value::String("5".to_string()));
    assert_eq!(roundtrip_text(&Value::Object(map)), Some(value("5")));
}

#[test]
fn binary_bytes() {
    assert_eq!(encode_binary(&value("true")), vec![0x20, 0, 0, 0, 0x40, 0, 0, 0]);
    assert_eq!(encode_binary(&value("[]")), vec![0x80, 0, 0, 0]);
    assert_eq!(
        encode_binary(&value("{\"a\":7}")),
        vec![0x40, 0, 0, 1, 0x10, 0, 0, 1, 0x20, 0, 0, 2, b'a', 0x50, 7]
    );
}

#[test]
fn binary_reads_back_sorted() {
    let given = value(
        "{\"b\":[-9223372036854775808,18446744073709551615,0],\"a\":{\"y\":\"\",\"x\":false}}",
    );
    let read = roundtrip_binary(&given).unwrap();
    assert_eq!(read, given);
    assert_eq!(
        encode_text(&read),
        "{\"a\":{\"x\":false,\"y\":\"\"},\"b\":[-9223372036854775808,18446744073709551615,0]}"
    );
    assert_eq!(encode_text(&roundtrip_binary(&read).unwrap()), encode_text(&read));
}

#[test]
fn binary_turns_foreign_bytes_away() {
    let foreign: [(&[u8], &str); 6] = [
        (&[], "InvalidEOF"),
        (&[0x80, 0, 0], "InvalidEOF"),
        (&[1, 0, 0, 0x20, 0, 0, 0, 0], "InvalidJsonb"),
        (&[0x20, 0, 0, 0, 0, 0, 0], "InvalidEOF"),
        (&[0x40, 0, 0, 1, 0x10, 0, 0, 0], "InvalidEOF"),
        (&[0x80, 0, 1, 0, 0, 0, 0, 0], "InvalidEOF"),
    ];
    for (bytes, error) in foreign {
        assert!(is_turned_away(bytes));
        assert_eq!(decode_binary(bytes), Err(error.to_string()));
    }
    let own = encode_binary(&value("[null]"));
    assert!(!is_turned_away(&own));
    assert_eq!(decode_binary(&own), Ok(value("[null]")));
}

#[test]
fn binary_datum_reads_back_without_text() {
    let given = value("{\"a\":[1,\"x\"]}");
    let stored = match JsonB(given.clone()).into_binary_datum() {
        Ok(NewDatum::Varlena(v)) => v,
        other => panic!("{:?}", other),
    };
    assert_eq!(stored.size as usize, stored.data.len() + 4);
    assert_eq!(stored.varsize_any_exhdr(), stored.data.len());
    let data = stored.vardata_any().to_vec();
    let step = JsonBState::resume_binary(16, Detoasted { address: 16, data: data.clone() });
    assert_eq!(step.warning, None);
    match step.next {
        Progress::Done(Some(json)) => assert_eq!(json.0, given),
        other => panic!("{:?}", other),
    }
    match JsonBState::resume_binary(16, Detoasted { address: 24, data }).next {
        Progress::Ask(Request::Free(24), JsonBState::FreeingCopy { value: json }) => {
            assert_eq!(json.0, given)
        }
        other => panic!("{:?}", other),
    }
}

#[test]
fn binary_form_is_reread() {
    let json = JsonB(value("{\"b\":1,\"a\":2}"));
    match json.try_reread_binary(16, 24).unwrap().next {
        Progress::Ask(Request::Free(24), JsonBState::FreeingCopy { value: read }) => {
            assert_eq!(encode_text(&read.0), "{\"a\":2,\"b\":1}");
        }
        other => panic!("{:?}", other),
    }
    match json.try_reread_binary(16, 16).unwrap().next {
        Progress::Done(Some(read)) => assert_eq!(read.0, json.0),
        other => panic!("{:?}", other),
    }
}

#[test]
fn binary_form_may_be_long() {
    // Each string fits its length field; the whole is longer than any one entry may be.
    let half = String::from_utf8(vec![b'x'; 0x0800_0000]).unwrap();
    let given = Value::Array(vec![Value::String(half.clone()), Value::String(half)]);
    assert!(try_roundtrip_binary(&given).is_none());
    assert!(roundtrip_binary(&given).unwrap() == given);
}

#[test]
fn short_values_are_tried() {
    let given = value("{\"b\":1,\"a\":[]}");
    let read = try_roundtrip_binary(&given).unwrap().unwrap();
    assert_eq!(encode_text(&read), "{\"a\":[],\"b\":1}");
}

#[test]
fn other_numbers_become_doubles() {
    let cases = [
        ("9.81", "9.81"),
        ("0.50", "0.5"),
        ("-0", "0"),
        ("18446744073709551616", "1.8446744073709552e+19"),
        ("340282366920938463463374607431768211455", "3.402823669209385e+38"),
        ("1e400", "null"),
    ];
    for (text, read) in cases {
        assert_eq!(encode_text(&roundtrip_binary(&value(text)).unwrap()), read);
    }
}

#[test]
fn binary_token_object_is_taken_for_a_number() {
    let token = |inner: Value| {
        let mut map = serde_json::Map::new();
        map.insert("$serde_json::private::Number".to_string(), inner);
        Value::Object(map)
    };
    assert_eq!(roundtrip_binary(&token(Value::String("5".to_string()))), Ok(value("5")));
    assert!(roundtrip_binary(&token(Value::Null)).is_err());
}

#[test]
fn foreign_datum_is_printed() {
    let data = vec![1, 0, 0, 0x20, 1, 0, 0, 0x80, b'a'];
    let step = JsonBState::resume_foreign(16, Detoasted { address: 24, data }).unwrap();
    assert_eq!(
        step.warning.unwrap(),
        "jsonb binary parse failed, falling back to text parse: InvalidJsonb"
    );
    assert!(matches!(
        step.next,
        Progress::Ask(
            Request::JsonbOut(24),
            JsonBState::Printing { varlena: 16, detoasted: 24 }
        )
    ));
    let data = encode_binary(&value("[]"));
    assert!(JsonBState::resume_foreign(16, Detoasted { address: 24, data }).is_none());
}

#[test]
fn refused_bytes_are_warned_of() {
    let mut map = serde_json::Map::new();
    map.insert("$serde_json::private::Number".to_string(), Value::String("x".to_string()));
    let data = encode_binary(&Value::Object(map));
    let error = decode_binary(&data).unwrap_err();
    assert!(error.starts_with("Message("));
    let step = JsonBState::resume_binary(16, Detoasted { address: 16, data });
    assert_eq!(
        step.warning,
        Some(format!("jsonb binary parse failed, falling back to text parse: {}", error))
    );
    assert!(matches!(step.next, Progress::Ask(Request::JsonbOut(16), _)));
}

#[test]
fn varlena_frames_bytes() {
    let v = jsonb_from_binary(&[1, 2, 3]).unwrap();
    assert_eq!(v.size, 7);
    assert_eq!(v.data, vec![1, 2, 3]);
    assert_eq!(jsonb_from_binary(&[]).unwrap().size, 4);
}

#[test]
fn varlena_limit() {
    // 0x3fff_fffb bytes and the header make 0x3fff_ffff, the first size that is refused.
    let bytes = vec![0u8; 0x3fff_fffb];
    assert!(jsonb_from_binary(&bytes).is_none());
    assert_eq!(jsonb_from_binary(&bytes[..0x10_0000]).unwrap().size, 0x10_0004);
}

#[test]
fn c_strings_end_with_nul() {
    assert_eq!(to_c_string("aé"), Some(vec![b'a', 0xc3, 0xa9, 0]));
    assert_eq!(to_c_string(""), Some(vec![0]));
    assert_eq!(to_c_string("a\0"), None);
}

#[test]
fn utf8_is_checked() {
    assert_eq!(decode_utf8_text(&[0xe2, 0x82, 0xac]), Some("€".to_string()));
    assert_eq!(decode_utf8_text(&[0xed, 0xa0, 0x80]), None);
}

#[test]
fn text_versions_are_read() {
    assert_eq!(jsonb_from_text(b"{\"a\": 1}").unwrap(), value("{\"a\":1}"));
    assert!(jsonb_from_text(b"").is_err());
}

#[test]
fn values_are_made() {
    assert_eq!(string_value("a\"b"), Value::String("a\"b".to_string()));
    assert_eq!(bool_value(false), Value::Bool(false));
    assert_eq!(number_value("-1.5e-3").to_string(), "-1.5e-3");
    assert_eq!(string_pair("a", "b"), value("[\"a\",\"b\"]"));
    assert_eq!(repeated_value(&value("{}"), 3), value("[{},{},{}]"));
    let object = Members::new().with("b", Value::Null).with("a", Value::Bool(true)).object();
    assert_eq!(encode_text(&object), "{\"b\":null,\"a\":true}");
}

#[test]
fn payloads() {
    assert_eq!(
        encode_text(&small_jsonb().0),
        "{\"id\":42,\"name\":\"Alice\",\"active\":true,\"score\":9.81}"
    );
    assert_eq!(small_jsonb().0["score"], Value::from(9.81f64));
    assert_eq!(encode_text(&medium_jsonb().0), MEDIUM);
    let large = large_jsonb().0;
    assert_eq!(large.as_array().unwrap().len(), 100);
    assert_eq!(large[0], medium_jsonb().0);
    assert_eq!(large[99], medium_jsonb().0);
}

#[test]
fn payloads_survive_both_forms() {
    for json in [small_jsonb(), medium_jsonb(), large_jsonb()] {
        assert_eq!(roundtrip_text(&json.0).unwrap(), json.0);
        assert_eq!(roundtrip_binary(&json.0).unwrap(), json.0);
        let (binary, text) = encoded_sizes(&json.0);
        assert_eq!(binary, encode_binary(&json.0).len());
        assert_eq!(text, encode_text(&json.0).len());
    }
    let (_, text) = encoded_sizes(&small_jsonb().0);
    assert_eq!(text, 51);
}

#[test]
fn benched_functions_are_identities() {
    let json = bench_jsonb_standard(medium_jsonb());
    assert_eq!(json.0, medium_jsonb().0);
    assert_eq!(bench_jsonb_extra_text(json).unwrap().0, medium_jsonb().0);
}
