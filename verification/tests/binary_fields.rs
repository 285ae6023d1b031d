use temporal_wasm::base64;
use temporal_wasm::base64_string_map;
use temporal_wasm::error::Flaw;
use temporal_wasm::metadata::Metadata;

fn value(text: &str) -> serde_json::Value {
    serde_json::from_str(text).unwrap()
}

fn text_of(bytes: &[u8]) -> serde_json::Value {
    base64::serialize(&bytes.to_vec()).unwrap()
}

#[test]
fn bytes_are_written_as_padded_standard_base64() {
    assert_eq!(text_of(b""), value("\"\""));
    assert_eq!(text_of(b"a"), value("\"YQ==\""));
    assert_eq!(text_of(b"ab"), value("\"YWI=\""));
    assert_eq!(text_of(b"abc"), value("\"YWJj\""));
    assert_eq!(text_of(&[255, 255, 254]), value("\"///+\""));
    assert_eq!(text_of(&[251, 255]), value("\"+/8=\""));
    assert_eq!(text_of(b"json/plain"), value("\"anNvbi9wbGFpbg==\""));
    assert_eq!(text_of(b"\"world\""), value("\"IndvcmxkIg==\""));
}

#[test]
fn the_text_is_as_long_as_padded_base64() {
    for len in 0..50usize {
        let bytes = vec![7u8; len];
        let text = base64::serialize(&bytes).unwrap();
        assert_eq!(text.as_str().unwrap().len(), 4 * ((len + 2) / 3));
    }
}

#[test]
fn bytes_are_read_from_base64() {
    assert_eq!(base64::deserialize(&value("\"\"")), Ok(Vec::new()));
    assert_eq!(base64::deserialize(&value("\"YQ==\"")), Ok(b"a".to_vec()));
    assert_eq!(base64::deserialize(&value("\"YWJj\"")), Ok(b"abc".to_vec()));
    assert_eq!(base64::deserialize(&value("\"IndvcmxkIg==\"")), Ok(b"\"world\"".to_vec()));
}

#[test]
fn bytes_survive_the_text() {
    for len in 0..300usize {
        let bytes: Vec<u8> = (0..len).map(|i| (i * 37 % 256) as u8).collect();
        let text = base64::serialize(&bytes).unwrap();
        assert_eq!(base64::deserialize(&text), Ok(bytes));
    }
}

#[test]
fn text_that_is_no_base64_is_a_flaw_of_base64() {
    for text in ["\"not-valid-base64!\"", "\"AQI\\n\"", "\"A\"", "\"=\"", "\"AQID====\"", "\"é\""] {
        assert_eq!(base64::deserialize(&value(text)), Err(Flaw::Base64));
    }
}

#[test]
fn a_value_that_is_no_string_is_a_flaw_of_shape() {
    for text in ["null", "true", "1", "[\"AQID\"]", "{\"a\":\"AQID\"}"] {
        assert_eq!(base64::deserialize(&value(text)), Err(Flaw::Shape));
    }
}

#[test]
fn metadata_is_written_as_an_object_of_texts() {
    let mut m = Metadata::new();
    assert_eq!(base64_string_map::serialize(&m).unwrap(), value("{}"));
    m.insert("b".to_string(), b"ab".to_vec());
    m.insert("a".to_string(), b"a".to_vec());
    m.insert("".to_string(), Vec::new());
    assert_eq!(
        base64_string_map::serialize(&m).unwrap(),
        value(r#"{"":"","a":"YQ==","b":"YWI="}"#)
    );
}

#[test]
fn metadata_is_read_from_an_object_of_texts() {
    let m = base64_string_map::deserialize(&value(r#"{"x":"YWJj","y":"","z":"AQID"}"#)).unwrap();
    assert_eq!(m.len(), 3);
    assert_eq!(m.get("x"), Some(&b"abc".to_vec()));
    assert_eq!(m.get("y"), Some(&Vec::new()));
    assert_eq!(m.get("z"), Some(&vec![1u8, 2, 3]));
    assert_eq!(m.get("w"), None);
    let m = base64_string_map::deserialize(&value("{}")).unwrap();
    assert!(m.is_empty());
}

#[test]
fn metadata_survives_the_object() {
    let mut m = Metadata::new();
    for i in 0..40u8 {
        m.insert(format!("key-{}", i), vec![i; i as usize]);
    }
    let back = base64_string_map::deserialize(&base64_string_map::serialize(&m).unwrap()).unwrap();
    assert_eq!(back.len(), 40);
    for i in 0..40u8 {
        assert_eq!(back.get(&format!("key-{}", i)), Some(&vec![i; i as usize]));
    }
}

#[test]
fn metadata_flaws() {
    let shape = ["null", "\"AQID\"", "[]", "3", r#"{"a":1}"#, r#"{"a":"!","b":null}"#, r#"{"a":{}}"#];
    for text in shape {
        assert_eq!(base64_string_map::deserialize(&value(text)).err(), Some(Flaw::Shape));
    }
    let base64 = [r#"{"a":"!"}"#, r#"{"a":"AQID","b":"A"}"#, r#"{"a":"A","b":"AQID"}"#];
    for text in base64 {
        assert_eq!(base64_string_map::deserialize(&value(text)).err(), Some(Flaw::Base64));
    }
}
