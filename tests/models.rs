use drfoo::{
    ApiKey, ChatModel, Client, CompletionModel, OpenAIChatModel, OpenAICompletionModel,
};
use drfoo::client::key_fits_header;

#[test]
fn known_chat_models_round_trip() {
    for k in [
        OpenAIChatModel::Gpt_4,
        OpenAIChatModel::Gpt_4_32k,
        OpenAIChatModel::Gpt_3dot5_turbo,
    ] {
        let m = ChatModel::from(k);
        let first = m.as_str().to_string();
        let back = ChatModel::from_wire(&first);
        assert!(matches!(back, ChatModel::OpenAI(j) if j == k));
        assert_eq!(back.as_str(), first);
    }
    assert_eq!(OpenAIChatModel::Gpt_3dot5_turbo.name(), "gpt-3.5-turbo");
}

#[test]
fn known_completion_models_round_trip() {
    for k in [
        OpenAICompletionModel::Text_Davinci_003,
        OpenAICompletionModel::Text_Davinci_002,
        OpenAICompletionModel::Text_Davinci_001,
        OpenAICompletionModel::Text_Curie_001,
        OpenAICompletionModel::Text_Babbage_001,
        OpenAICompletionModel::Text_Ada_001,
    ] {
        let first = CompletionModel::from(k).as_str().to_string();
        let back = CompletionModel::from_wire(&first);
        assert!(matches!(back, CompletionModel::OpenAI(j) if j == k));
        assert_eq!(back.as_str(), first);
    }
    assert_eq!(OpenAICompletionModel::Text_Davinci_002.name(), "text-davinci-002");
}

#[test]
fn unknown_names_become_custom() {
    let m = ChatModel::from_wire("gpt-5-preview");
    assert!(matches!(&m, ChatModel::Custom(s) if s == "gpt-5-preview"));
    let c = CompletionModel::from_wire("davinci");
    assert!(matches!(&c, CompletionModel::Custom(s) if s == "davinci"));
    assert_eq!(ChatModel::from_wire("").as_str(), "");
    assert!(matches!(ChatModel::from_wire("GPT-4"), ChatModel::Custom(_)));
}

#[test]
fn custom_with_known_text_writes_same_text() {
    let m = ChatModel::from("gpt-4".to_string());
    let back = ChatModel::from_wire(m.as_str());
    assert!(matches!(back, ChatModel::OpenAI(OpenAIChatModel::Gpt_4)));
    assert_eq!(back.as_str(), m.as_str());
}

#[test]
fn default_models() {
    assert_eq!(ChatModel::default().as_str(), "gpt-4");
    assert_eq!(CompletionModel::default().as_str(), "text-davinci-003");
}

fn model_of(body: &str) -> String {
    let v: serde_json::Value = serde_json::from_str(body).unwrap();
    v.get("model").unwrap().as_str().unwrap().to_string()
}

#[test]
fn response_model_names_are_read() {
    let known = r#"{"id":"x","object":"chat.completion","created":1,"model":"gpt-3.5-turbo","choices":[]}"#;
    let unknown = r#"{"id":"x","object":"chat.completion","created":1,"model":"gpt-3.5-turbo-0301","choices":[]}"#;
    assert!(matches!(
        ChatModel::from_wire(&model_of(known)),
        ChatModel::OpenAI(OpenAIChatModel::Gpt_3dot5_turbo)
    ));
    assert!(matches!(
        ChatModel::from_wire(&model_of(unknown)),
        ChatModel::Custom(s) if s == "gpt-3.5-turbo-0301"
    ));
}

#[test]
fn client_endpoints() {
    let client = Client::new(ApiKey::from("sk-test".to_string())).unwrap();
    assert_eq!(client.base_url(), "https://api.openai.com/v1");
    assert_eq!(client.completions_url(), "https://api.openai.com/v1/completions");
    assert_eq!(client.chat_url(), "https://api.openai.com/v1/chat/completions");
}

#[test]
fn client_headers() {
    let client = Client::new(ApiKey::from("sk-test".to_string())).unwrap();
    assert_eq!(client.authorization(), "Bearer sk-test");
    assert_eq!(client.content_type(), "application/json");
}

#[test]
fn malformed_key_does_not_fit_header() {
    assert!(!key_fits_header(&ApiKey::from("bad\nkey".to_string())));
    assert!(!key_fits_header(&ApiKey::from("bad\u{7f}".to_string())));
    assert!(key_fits_header(&ApiKey::from("tab\tand é".to_string())));
    assert!(key_fits_header(&ApiKey::from("sk-test".to_string())));
    assert!(Client::new(ApiKey::from("tab\tand é".to_string())).is_ok());
}

#[test]
fn authorization_header_text() {
    let key = ApiKey::from("abc".to_string());
    assert_eq!(drfoo::client::authorization(&key), "Bearer abc");
}
