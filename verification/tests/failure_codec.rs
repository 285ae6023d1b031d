use temporal_wasm::error::{DecodeError, Field};
use temporal_wasm::failure::{is_false, Failure};
use temporal_wasm::metadata::Metadata;
use temporal_wasm::payload::Payload;

fn value(text: &str) -> serde_json::Value {
    serde_json::from_str(text).unwrap()
}

fn chain(messages: &[&str]) -> Failure {
    let mut failure: Option<Failure> = None;
    for message in messages.iter().rev() {
        let mut f = Failure::new(message.to_string());
        f.cause = failure.map(Box::new);
        failure = Some(f);
    }
    failure.unwrap()
}

fn messages(mut f: &Failure) -> Vec<String> {
    let mut all = vec![f.message.clone()];
    while let Some(cause) = &f.cause {
        all.push(cause.message.clone());
        f = cause;
    }
    all
}

#[test]
fn failure_with_only_a_message_has_only_that_member() {
    let f = Failure::new("boom".to_string());
    assert_eq!(f.to_bytes().unwrap(), br#"{"message":"boom"}"#.to_vec());
    let envelope = f.encode().unwrap();
    assert_eq!(envelope.as_object().unwrap().len(), 1);
    assert_eq!(envelope, value(r#"{"message":"boom"}"#));
}

#[test]
fn new_failure_holds_only_its_message() {
    let f = Failure::new("boom".to_string());
    assert_eq!(f.message, "boom");
    assert_eq!(f.kind, None);
    assert!(!f.non_retryable);
    assert!(f.details.is_empty());
    assert!(f.cause.is_none());
}

#[test]
fn an_empty_message_is_still_written() {
    let f = Failure::new(String::new());
    assert_eq!(f.to_bytes().unwrap(), br#"{"message":""}"#.to_vec());
}

#[test]
fn failure_envelope_has_exact_members() {
    let mut f = Failure::new("outer".to_string());
    f.kind = Some("Broken".to_string());
    f.non_retryable = true;
    f.details = vec![
        Payload { metadata: Metadata::new(), data: b"abc".to_vec() },
        Payload::default(),
    ];
    f.cause = Some(Box::new(Failure::new("inner".to_string())));
    assert_eq!(
        f.encode().unwrap(),
        value(
            r#"{"message":"outer","type":"Broken","non_retryable":true,
                "details":[{"data":"YWJj"},{}],"cause":{"message":"inner"}}"#
        )
    );
}

#[test]
fn a_retryable_failure_leaves_the_flag_out() {
    let mut f = Failure::new("m".to_string());
    f.kind = Some(String::new());
    let envelope = f.encode().unwrap();
    assert!(envelope.get("non_retryable").is_none());
    assert_eq!(envelope, value(r#"{"message":"m","type":""}"#));
}

#[test]
fn is_false_tells_a_flag_that_is_down() {
    assert!(is_false(&false));
    assert!(!is_false(&true));
}

#[test]
fn failure_round_trips() {
    let mut f = Failure::new("outer".to_string());
    f.kind = Some("Broken".to_string());
    f.non_retryable = true;
    let mut metadata = Metadata::new();
    metadata.insert("encoding".to_string(), b"json/plain".to_vec());
    f.details = vec![Payload { metadata, data: b"\"x\"".to_vec() }, Payload::default()];
    f.cause = Some(Box::new(Failure::new("inner".to_string())));
    let g = Failure::from_bytes(&f.to_bytes().unwrap()).unwrap();
    assert_eq!(g.message, "outer");
    assert_eq!(g.kind, Some("Broken".to_string()));
    assert!(g.non_retryable);
    assert_eq!(g.details.len(), 2);
    assert_eq!(g.details[0].data, b"\"x\"".to_vec());
    assert_eq!(g.details[0].metadata.get("encoding"), Some(&b"json/plain".to_vec()));
    assert_eq!(g.details[0].metadata.len(), 1);
    assert!(g.details[1].data.is_empty() && g.details[1].metadata.is_empty());
    let cause = g.cause.unwrap();
    assert_eq!(cause.message, "inner");
    assert_eq!(cause.kind, None);
    assert!(!cause.non_retryable);
    assert!(cause.details.is_empty());
    assert!(cause.cause.is_none());
}

#[test]
fn cause_chain_of_depth_three_round_trips() {
    let f = chain(&["top", "first cause", "second cause", "third cause"]);
    assert_eq!(
        f.to_bytes().unwrap(),
        br#"{"cause":{"cause":{"cause":{"message":"third cause"},"message":"second cause"},"message":"first cause"},"message":"top"}"#
            .to_vec()
    );
    let g = Failure::from_bytes(&f.to_bytes().unwrap()).unwrap();
    assert_eq!(messages(&g), vec!["top", "first cause", "second cause", "third cause"]);
    let h = Failure::decode(&f.encode().unwrap()).unwrap();
    assert_eq!(messages(&h), messages(&f));
}

#[test]
fn long_cause_chain_round_trips() {
    let names: Vec<String> = (0..40).map(|i| format!("level {}", i)).collect();
    let refs: Vec<&str> = names.iter().map(|s| s.as_str()).collect();
    let f = chain(&refs);
    let g = Failure::from_bytes(&f.to_bytes().unwrap()).unwrap();
    assert_eq!(messages(&g), names);
}

#[test]
fn a_chain_deeper_than_the_reader_goes_is_written_but_not_read() {
    let names: Vec<String> = (0..200).map(|i| format!("level {}", i)).collect();
    let refs: Vec<&str> = names.iter().map(|s| s.as_str()).collect();
    let f = chain(&refs);
    let envelope = f.encode().unwrap();
    let g = Failure::decode(&envelope).unwrap();
    assert_eq!(messages(&g), names);
    let text = f.to_bytes().unwrap();
    assert_eq!(Failure::from_bytes(&text).err(), Some(DecodeError::Syntax));
}

#[test]
fn decoding_fills_in_what_is_missing() {
    let f = Failure::from_bytes(br#"{"message":"m","unknown":1}"#).unwrap();
    assert_eq!(f.message, "m");
    assert_eq!(f.kind, None);
    assert!(!f.non_retryable);
    assert!(f.details.is_empty());
    assert!(f.cause.is_none());
    let f = Failure::from_bytes(br#"{"message":"m","non_retryable":false,"details":[]}"#).unwrap();
    assert!(!f.non_retryable);
    assert!(f.details.is_empty());
}

#[test]
fn failure_decode_errors() {
    let cases = [
        ("nonsense", DecodeError::Syntax),
        ("[]", DecodeError::Shape(Field::Envelope)),
        ("{}", DecodeError::Shape(Field::Message)),
        (r#"{"message":1}"#, DecodeError::Shape(Field::Message)),
        (r#"{"message":null,"type":1}"#, DecodeError::Shape(Field::Message)),
        (r#"{"message":"m","type":1}"#, DecodeError::Shape(Field::Kind)),
        (r#"{"message":"m","type":null}"#, DecodeError::Shape(Field::Kind)),
        (r#"{"message":"m","non_retryable":"true"}"#, DecodeError::Shape(Field::NonRetryable)),
        (r#"{"message":"m","non_retryable":1,"details":1}"#, DecodeError::Shape(Field::NonRetryable)),
        (r#"{"message":"m","details":{}}"#, DecodeError::Shape(Field::Details)),
        (r#"{"message":"m","details":[{"data":"!"}]}"#, DecodeError::Base64(Field::Data)),
        (r#"{"message":"m","details":[{"metadata":{"a":"!"}}]}"#, DecodeError::Base64(Field::Metadata)),
        (r#"{"message":"m","details":[{},1]}"#, DecodeError::Shape(Field::Envelope)),
        (r#"{"message":"m","cause":"x"}"#, DecodeError::Shape(Field::Envelope)),
        (r#"{"message":"m","cause":null}"#, DecodeError::Shape(Field::Envelope)),
        (r#"{"message":"m","cause":{}}"#, DecodeError::Shape(Field::Message)),
        (r#"{"message":"m","cause":{"message":"c","cause":{"message":"d","type":[]}}}"#, DecodeError::Shape(Field::Kind)),
        (r#"{"message":"m","details":3,"cause":{}}"#, DecodeError::Shape(Field::Details)),
    ];
    for (text, error) in cases {
        assert_eq!(Failure::from_bytes(text.as_bytes()).err(), Some(error), "{}", text);
    }
}
