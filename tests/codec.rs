use echov2::codec::{decode_record, encode_record, frame_record, record_from_fields, CredentialRecord};
use echov2::vault::{entry_name, read_outcome, StoreReply, VaultError};

fn record(p: &str, k: &str, e: Option<&str>) -> CredentialRecord {
    CredentialRecord {
        provider: p.to_string(),
        api_key: k.to_string(),
        custom_endpoint: e.map(|s| s.to_string()),
    }
}

fn members(v: &[(&str, Option<&str>)]) -> Vec<(String, Option<String>)> {
    v.iter().map(|(k, x)| (k.to_string(), x.map(|s| s.to_string()))).collect()
}

#[test]
fn openai_record_round_trips_without_override() {
    let text = encode_record(&record("openai", "sk-test-123", None)).expect("writable");
    let back = decode_record(&text).expect("well formed");
    assert_eq!(back.provider, "openai");
    assert_eq!(back.api_key, "sk-test-123");
    assert_eq!(back.custom_endpoint, None);
}

#[test]
fn payload_layout_is_compact_json() {
    let text = encode_record(&record("openai", "sk-test-123", None)).unwrap();
    assert_eq!(text, "{\"provider\":\"openai\",\"api_key\":\"sk-test-123\",\"custom_endpoint\":null}");
    let text = encode_record(&record("ollama", "k", Some("http://localhost:11434"))).unwrap();
    assert_eq!(
        text,
        "{\"provider\":\"ollama\",\"api_key\":\"k\",\"custom_endpoint\":\"http://localhost:11434\"}"
    );
}

#[test]
fn frame_record_places_literals() {
    assert_eq!(
        frame_record("\"a\"", "\"b\"", Some("\"c\"")),
        "{\"provider\":\"a\",\"api_key\":\"b\",\"custom_endpoint\":\"c\"}"
    );
    assert_eq!(frame_record("1", "2", None), "{\"provider\":1,\"api_key\":2,\"custom_endpoint\":null}");
}

#[test]
fn special_characters_are_escaped_and_restored() {
    let r = record("we\"ird", "a\\b\nc\rd\te\u{1}f\u{8}g\u{c}", Some("x\"y"));
    let text = encode_record(&r).unwrap();
    assert_eq!(
        text,
        "{\"provider\":\"we\\\"ird\",\"api_key\":\"a\\\\b\\nc\\rd\\te\\u0001f\\bg\\f\",\"custom_endpoint\":\"x\\\"y\"}"
    );
    let back = decode_record(&text).expect("well formed");
    assert_eq!(back.provider, r.provider);
    assert_eq!(back.api_key, r.api_key);
    assert_eq!(back.custom_endpoint, r.custom_endpoint);
}

#[test]
fn empty_and_non_ascii_fields_round_trip() {
    let r = record("", "clé-ünïcode-密钥", Some(""));
    let back = decode_record(&encode_record(&r).unwrap()).expect("well formed");
    assert_eq!(back.provider, "");
    assert_eq!(back.api_key, "clé-ünïcode-密钥");
    assert_eq!(back.custom_endpoint, Some(String::new()));
}

#[test]
fn second_record_replaces_first_entirely() {
    let first = encode_record(&record("openai", "s1", Some("https://a.example"))).unwrap();
    let second = encode_record(&record("openai", "s2", None)).unwrap();
    assert_ne!(first, second);
    let back = decode_record(&second).expect("well formed");
    assert_eq!(back.api_key, "s2");
    assert_eq!(back.custom_endpoint, None);
}

#[test]
fn decoder_reads_any_valid_json_record() {
    let back = decode_record(
        " { \"custom_endpoint\" : \"https://e\" ,\n \"api_key\": \"\\u0041\\/b\", \"provider\":\"openai\" } ",
    )
    .expect("well formed");
    assert_eq!(back.provider, "openai");
    assert_eq!(back.api_key, "A/b");
    assert_eq!(back.custom_endpoint, Some("https://e".to_string()));
}

#[test]
fn missing_endpoint_reads_as_absent() {
    let back = decode_record("{\"provider\":\"openai\",\"api_key\":\"k\"}").expect("well formed");
    assert_eq!(back.custom_endpoint, None);
}

#[test]
fn malformed_payloads_are_rejected() {
    assert!(decode_record("").is_none());
    assert!(decode_record("not json").is_none());
    assert!(decode_record("{\"provider\":\"openai\"}").is_none());
    assert!(decode_record("{\"provider\":null,\"api_key\":\"k\"}").is_none());
    assert!(decode_record("{\"provider\":\"openai\",\"api_key\":\"k\",\"custom_endpoint\":null}x").is_none());
    assert!(decode_record("{\"provider\":\"openai\",\"api_key\":\"k\\q\",\"custom_endpoint\":null}").is_none());
    assert!(decode_record("{\"provider\":\"openai\",\"api_key\":\"k").is_none());
}

#[test]
fn fields_are_selected_by_name() {
    let r = record_from_fields(&members(&[
        ("api_key", Some("k")),
        ("extra", Some("x")),
        ("provider", Some("p")),
    ]))
    .expect("record");
    assert_eq!((r.provider.as_str(), r.api_key.as_str(), r.custom_endpoint), ("p", "k", None));
    let r = record_from_fields(&members(&[
        ("api_key", Some("k")),
        ("custom_endpoint", Some("e")),
        ("provider", Some("p")),
    ]))
    .expect("record");
    assert_eq!(r.custom_endpoint, Some("e".to_string()));
    assert!(record_from_fields(&members(&[("provider", Some("p"))])).is_none());
    assert!(record_from_fields(&members(&[("api_key", None), ("provider", Some("p"))])).is_none());
    assert!(record_from_fields(&members(&[])).is_none());
}

#[test]
fn entry_name_prefixes_provider() {
    assert_eq!(entry_name("openai"), "api_key_openai");
    assert_eq!(entry_name(""), "api_key_");
}

#[test]
fn absent_payload_reads_as_no_record() {
    assert!(matches!(read_outcome("openai", StoreReply::NoEntry), Ok(None)));
}

#[test]
fn stored_payload_reads_as_record() {
    let text = encode_record(&record("google", "g-key", None)).unwrap();
    match read_outcome("google", StoreReply::Done(text)) {
        Ok(Some(r)) => {
            assert_eq!(r.provider, "google");
            assert_eq!(r.api_key, "g-key");
        }
        other => panic!("unexpected {:?}", other),
    }
}

#[test]
fn corrupt_payload_is_a_deserialization_error() {
    match read_outcome("openai", StoreReply::Done("garbage".to_string())) {
        Err(e) => {
            assert_eq!(e, VaultError::Deserialization { provider: "openai".to_string() });
            assert_eq!(e.message(), "Failed to deserialize API key data for openai");
            assert!(!e.message().contains("garbage"));
        }
        other => panic!("unexpected {:?}", other),
    }
}

#[test]
fn read_failure_is_a_store_access_error() {
    match read_outcome("anthropic", StoreReply::Failed("locked".to_string())) {
        Err(e) => assert_eq!(e.message(), "Failed to retrieve API key for anthropic: locked"),
        other => panic!("unexpected {:?}", other),
    }
}
