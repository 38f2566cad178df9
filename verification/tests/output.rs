use serde_json::Value;
use tass::output::{encoding, frame, Encoding, Format};

fn sample() -> Value {
    let mut map = serde_json::Map::new();
    map.insert("a".to_string(), Value::from(1));
    Value::Object(map)
}

fn encoded(v: &Value, fmt: Format) -> Vec<u8> {
    let enc = encoding(fmt);
    let bytes = match enc {
        Encoding::PrettyJson => serde_json::to_string_pretty(v).unwrap().into_bytes(),
        Encoding::DagCbor => serde_ipld_dagcbor::to_vec(v).unwrap(),
    };
    frame(enc, bytes)
}

#[test]
fn json_is_pretty_with_trailing_newline() {
    let out = String::from_utf8(encoded(&sample(), Format::Json)).unwrap();
    assert_eq!(out, "{\n  \"a\": 1\n}\n");
}

#[test]
fn table_falls_back_to_json() {
    let v = sample();
    assert_eq!(encoded(&v, Format::Table), encoded(&v, Format::Json));
}

#[test]
fn cbor_is_raw_bytes_no_newline() {
    let buf = encoded(&sample(), Format::Cbor);
    let expect = serde_ipld_dagcbor::to_vec(&sample()).unwrap();
    assert_eq!(buf, expect);
    assert_ne!(buf.last(), Some(&b'\n'));
}
