use temporal_wasm::error::{DecodeError, Field};
use temporal_wasm::metadata::Metadata;
use temporal_wasm::payload::{decode_all, encode_all, Payload};

fn value(text: &str) -> serde_json::Value {
    serde_json::from_str(text).unwrap()
}

fn sample() -> Payload {
    let mut metadata = Metadata::new();
    metadata.insert("encoding".to_string(), b"json/plain".to_vec());
    metadata.insert("other".to_string(), vec![0u8, 255, 128, 7]);
    Payload { metadata, data: vec![1u8, 2, 3, 250, 0] }
}

fn same(a: &Payload, b: &Payload) -> bool {
    if a.data != b.data || a.metadata.len() != b.metadata.len() {
        return false;
    }
    let mut i = 0;
    while let Some((key, bytes)) = a.metadata.entry(i) {
        if b.metadata.get(key) != Some(bytes) {
            return false;
        }
        i += 1;
    }
    true
}

#[test]
fn empty_payload_encodes_to_empty_object() {
    let p = Payload::default();
    assert_eq!(p.to_bytes().unwrap(), b"{}".to_vec());
    let envelope = p.encode().unwrap();
    assert!(envelope.get("metadata").is_none());
    assert!(envelope.get("data").is_none());
    assert_eq!(envelope, value("{}"));
}

#[test]
fn payload_without_metadata_has_only_data() {
    let p = Payload { metadata: Metadata::new(), data: vec![1u8, 2, 3] };
    assert_eq!(p.to_bytes().unwrap(), br#"{"data":"AQID"}"#.to_vec());
}

#[test]
fn payload_without_data_has_only_metadata() {
    let mut metadata = Metadata::new();
    metadata.insert("k".to_string(), b"ab".to_vec());
    let p = Payload { metadata, data: Vec::new() };
    assert_eq!(p.to_bytes().unwrap(), br#"{"metadata":{"k":"YWI="}}"#.to_vec());
}

#[test]
fn payload_envelope_has_exact_members() {
    let envelope = sample().encode().unwrap();
    assert_eq!(
        envelope,
        value(r#"{"metadata":{"encoding":"anNvbi9wbGFpbg==","other":"AP+ABw=="},"data":"AQID+gA="}"#)
    );
}

#[test]
fn payload_round_trips_through_envelope() {
    let p = sample();
    let q = Payload::decode(&p.encode().unwrap()).unwrap();
    assert!(same(&p, &q));
}

#[test]
fn payload_round_trips_through_text() {
    let p = sample();
    let q = Payload::from_bytes(&p.to_bytes().unwrap()).unwrap();
    assert!(same(&p, &q));
    assert_eq!(q.metadata.get("encoding"), Some(&b"json/plain".to_vec()));
    assert_eq!(q.metadata.get("other"), Some(&vec![0u8, 255, 128, 7]));
}

#[test]
fn every_byte_value_round_trips() {
    let all: Vec<u8> = (0..=255u8).collect();
    for len in 0..all.len() {
        let mut metadata = Metadata::new();
        metadata.insert(format!("key{}", len), all[len..].to_vec());
        let p = Payload { metadata, data: all[..len].to_vec() };
        let q = Payload::from_bytes(&p.to_bytes().unwrap()).unwrap();
        assert!(same(&p, &q));
    }
}

#[test]
fn any_string_can_be_a_key() {
    let keys = ["", " ", "a\"b", "line\nbreak", "\u{0}", "é✓", "metadata", "data", "\\"];
    let mut metadata = Metadata::new();
    for (i, key) in keys.iter().enumerate() {
        metadata.insert(key.to_string(), vec![i as u8; i]);
    }
    let p = Payload { metadata, data: Vec::new() };
    let q = Payload::from_bytes(&p.to_bytes().unwrap()).unwrap();
    assert_eq!(q.metadata.len(), keys.len());
    for (i, key) in keys.iter().enumerate() {
        assert_eq!(q.metadata.get(key), Some(&vec![i as u8; i]));
    }
    assert!(same(&p, &q));
}

#[test]
fn an_envelope_built_by_hand_is_read() {
    let mut inner = serde_json::Map::new();
    inner.insert("k".to_string(), serde_json::Value::String("YWJj".to_string()));
    let mut members = serde_json::Map::new();
    members.insert("metadata".to_string(), serde_json::Value::Object(inner));
    members.insert("data".to_string(), serde_json::Value::String("AQID".to_string()));
    members.insert("more".to_string(), serde_json::Value::Bool(true));
    let p = Payload::decode(&serde_json::Value::Object(members)).unwrap();
    assert_eq!(p.data, vec![1u8, 2, 3]);
    assert_eq!(p.metadata.len(), 1);
    assert_eq!(p.metadata.get("k"), Some(&b"abc".to_vec()));
    assert_eq!(
        Payload::decode(&serde_json::Value::Bool(true)).err(),
        Some(DecodeError::Shape(Field::Envelope))
    );
}

#[test]
fn empty_payload_round_trips() {
    let p = Payload::default();
    let q = Payload::from_bytes(&p.to_bytes().unwrap()).unwrap();
    assert!(q.data.is_empty());
    assert!(q.metadata.is_empty());
}

#[test]
fn metadata_with_an_empty_value_round_trips() {
    let mut metadata = Metadata::new();
    metadata.insert("empty".to_string(), Vec::new());
    let p = Payload { metadata, data: Vec::new() };
    assert_eq!(p.to_bytes().unwrap(), br#"{"metadata":{"empty":""}}"#.to_vec());
    let q = Payload::from_bytes(&p.to_bytes().unwrap()).unwrap();
    assert_eq!(q.metadata.get("empty"), Some(&Vec::new()));
}

#[test]
fn decoding_an_empty_object_gives_the_empty_payload() {
    let p = Payload::from_bytes(b"{}").unwrap();
    assert!(p.metadata.is_empty());
    assert!(p.data.is_empty());
}

#[test]
fn decoding_passes_over_unknown_members() {
    let p = Payload::from_bytes(br#"{"data":"AQID","extra":[1,2.5,null]}"#).unwrap();
    assert_eq!(p.data, vec![1u8, 2, 3]);
    assert!(p.metadata.is_empty());
}

#[test]
fn decoding_reads_standard_alphabet() {
    let p = Payload::from_bytes(br#"{"data":"///+"}"#).unwrap();
    assert_eq!(p.data, vec![255u8, 255, 254]);
    let p = Payload::from_bytes(br#"{"data":"+/8="}"#).unwrap();
    assert_eq!(p.data, vec![251u8, 255]);
}

#[test]
fn invalid_base64_data_is_rejected() {
    let r = Payload::from_bytes(br#"{"data":"not-valid-base64!"}"#);
    assert_eq!(r.err(), Some(DecodeError::Base64(Field::Data)));
}

#[test]
fn url_safe_alphabet_is_rejected() {
    let r = Payload::from_bytes(br#"{"data":"__-_"}"#);
    assert_eq!(r.err(), Some(DecodeError::Base64(Field::Data)));
}

#[test]
fn invalid_base64_metadata_is_rejected() {
    let r = Payload::from_bytes(br#"{"metadata":{"a":"AQID","b":"!"},"data":"AQID"}"#);
    assert_eq!(r.err(), Some(DecodeError::Base64(Field::Metadata)));
}

#[test]
fn metadata_is_read_before_data() {
    let r = Payload::from_bytes(br#"{"metadata":{"b":"!"},"data":"!"}"#);
    assert_eq!(r.err(), Some(DecodeError::Base64(Field::Metadata)));
}

#[test]
fn data_of_the_wrong_shape_is_rejected() {
    for text in [r#"{"data":7}"#, r#"{"data":null}"#, r#"{"data":["AQID"]}"#, r#"{"data":{}}"#] {
        let r = Payload::from_bytes(text.as_bytes());
        assert_eq!(r.err(), Some(DecodeError::Shape(Field::Data)));
    }
}

#[test]
fn metadata_of_the_wrong_shape_is_rejected() {
    for text in [r#"{"metadata":"AQID"}"#, r#"{"metadata":[]}"#, r#"{"metadata":{"a":1}}"#] {
        let r = Payload::from_bytes(text.as_bytes());
        assert_eq!(r.err(), Some(DecodeError::Shape(Field::Metadata)));
    }
}

#[test]
fn a_value_of_the_wrong_shape_outweighs_invalid_base64() {
    for text in [r#"{"metadata":{"a":"!","b":1}}"#, r#"{"metadata":{"a":1,"b":"!"}}"#] {
        let r = Payload::from_bytes(text.as_bytes());
        assert_eq!(r.err(), Some(DecodeError::Shape(Field::Metadata)));
    }
}

#[test]
fn an_envelope_that_is_no_object_is_rejected() {
    for text in ["[]", "\"AQID\"", "null", "true", "12"] {
        let r = Payload::from_bytes(text.as_bytes());
        assert_eq!(r.err(), Some(DecodeError::Shape(Field::Envelope)));
    }
}

#[test]
fn text_that_is_no_json_is_rejected() {
    for text in ["", "{", "{}{}", "{\"data\":}", "\u{feff}{}"] {
        let r = Payload::from_bytes(text.as_bytes());
        assert_eq!(r.err(), Some(DecodeError::Syntax));
    }
    assert_eq!(Payload::from_bytes(&[0xff, 0xfe]).err(), Some(DecodeError::Syntax));
}

#[test]
fn a_repeated_member_counts_once() {
    let p = Payload::from_bytes(br#"{"data":"AQID","data":"YQ=="}"#).unwrap();
    assert_eq!(p.data, b"a".to_vec());
}

#[test]
fn payloads_round_trip_in_order() {
    let payloads = vec![
        sample(),
        Payload::default(),
        Payload { metadata: Metadata::new(), data: b"abc".to_vec() },
    ];
    let array = encode_all(&payloads).unwrap();
    assert_eq!(array.as_array().unwrap().len(), 3);
    assert_eq!(array.as_array().unwrap()[1], value("{}"));
    assert_eq!(array.as_array().unwrap()[2], value(r#"{"data":"YWJj"}"#));
    let back = decode_all(array.as_array().unwrap()).unwrap();
    assert_eq!(back.len(), 3);
    for (a, b) in payloads.iter().zip(back.iter()) {
        assert!(same(a, b));
    }
}

#[test]
fn the_first_bad_payload_decides_the_error() {
    let array = value(r#"[{"data":"AQID"},{"data":1},{"metadata":"x"},"no"]"#);
    let r = decode_all(array.as_array().unwrap());
    assert_eq!(r.err(), Some(DecodeError::Shape(Field::Data)));
    let array = value(r#"[{"data":"AQID"},7,{"data":1}]"#);
    let r = decode_all(array.as_array().unwrap());
    assert_eq!(r.err(), Some(DecodeError::Shape(Field::Envelope)));
}

#[test]
fn json_payload_names_its_encoding() {
    let p = Payload::from_json(&value(r#"{"b":[1,true,null],"a":"x"}"#)).unwrap();
    assert_eq!(p.data, br#"{"a":"x","b":[1,true,null]}"#.to_vec());
    assert_eq!(p.metadata.len(), 1);
    assert_eq!(p.metadata.get("encoding"), Some(&b"json/plain".to_vec()));
}

#[test]
fn json_string_payload_is_quoted_and_escaped() {
    let p = Payload::from_json_string("say \"hi\"\n").unwrap();
    assert_eq!(p.data, br#""say \"hi\"\n""#.to_vec());
    assert_eq!(p.metadata.get("encoding"), Some(&b"json/plain".to_vec()));
}

#[test]
fn default_payload_is_empty() {
    let p = Payload::default();
    assert!(p.metadata.is_empty());
    assert_eq!(p.metadata.len(), 0);
    assert!(p.data.is_empty());
}
