use spin_sdk::http::into_header_rep;
use spin_sdk::http::Body;
use spin_sdk::http::HeaderValue;
use spin_sdk::http::Json;
use spin_sdk::llm::EmbeddingModel;
use spin_sdk::llm::InferencingModel;

#[test]
fn string_header_round_trips() {
    let h = HeaderValue::string(String::from("hello"));
    assert_eq!(h.as_str(), Some("hello"));
    assert_eq!(h.as_bytes(), b"hello");
    let h = HeaderValue::string(String::from("hello"));
    assert_eq!(h.into_utf8_lossy(), String::from("hello"));
    let h = HeaderValue::string(String::from("hello"));
    assert_eq!(h.into_bytes(), b"hello".to_vec());
}

#[test]
fn utf8_bytes_become_a_string() {
    let h = HeaderValue::bytes(vec![0x61, 0x62, 0x63]);
    assert_eq!(h.as_str(), Some("abc"));
    assert_eq!(h.as_bytes(), b"abc");
}

#[test]
fn non_utf8_bytes_stay_bytes() {
    let h = HeaderValue::bytes(vec![0xff, 0xfe]);
    assert_eq!(h.as_str(), None);
    assert_eq!(h.as_bytes(), &[0xff, 0xfe]);
    let h = HeaderValue::bytes(vec![0xff, 0xfe]);
    assert_eq!(h.into_utf8_lossy(), String::from("\u{FFFD}\u{FFFD}"));
    let h = HeaderValue::bytes(vec![0xff, 0xfe]);
    assert_eq!(h.into_bytes(), vec![0xff, 0xfe]);
}

#[test]
fn header_names_are_lowercase_folded() {
    let headers = vec![
        (String::from("X-Foo"), b"Bar".to_vec()),
        (String::from("ACCEPT"), b"application/json".to_vec()),
    ];
    let rep = into_header_rep(headers);
    assert_eq!(rep.len(), 2);
    assert_eq!(rep[0].0, "x-foo");
    assert_eq!(rep[0].1.as_bytes(), b"Bar");
    assert_eq!(rep[1].0, "accept");
    assert_eq!(rep[1].1.as_bytes(), b"application/json");
}

#[test]
fn extractors_hand_back_their_value() {
    assert_eq!(Body(7u32).into_inner(), 7);
    assert_eq!(Json(String::from("x")).into_inner(), String::from("x"));
    assert_eq!(*&Body(vec![1u8]).0, vec![1u8]);
}

#[test]
fn model_names() {
    assert_eq!(InferencingModel::Llama2Chat.name(), "llama2-chat");
    assert_eq!(
        InferencingModel::CodellamaInstruct.name(),
        "codellama-instruct"
    );
    assert_eq!(InferencingModel::Other("my-model").name(), "my-model");
    assert_eq!(EmbeddingModel::AllMiniLmL6V2.name(), "all-minilm-l6-v2");
    assert_eq!(EmbeddingModel::Other("embedder").name(), "embedder");
}
