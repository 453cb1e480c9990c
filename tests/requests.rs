use drfoo::{Base, BaseExt, Chat, ChatModel, Completion, CompletionModel, Message, Thousandths};

fn parse(text: &str) -> serde_json::Map<String, serde_json::Value> {
    match serde_json::from_str::<serde_json::Value>(text).unwrap() {
        serde_json::Value::Object(m) => m,
        other => panic!("not an object: {}", other),
    }
}

#[test]
fn completion_with_one_prompt_payload() {
    let request = Completion::new().with_prompt("Hello");
    let text = request.to_json();
    let expected: serde_json::Value = serde_json::from_str(
        r#"{"model":"text-davinci-003","stream":false,"user":"","prompt":["Hello"]}"#,
    )
    .unwrap();
    let got: serde_json::Value = serde_json::from_str(&text).unwrap();
    assert_eq!(got, expected);
    assert_eq!(
        text,
        r#"{"model":"text-davinci-003","stream":false,"user":"","prompt":["Hello"]}"#
    );
}

#[test]
fn completion_from_prompt_matches_builder() {
    let a = Completion::from_prompt("Hello").to_json();
    let b = Completion::new().with_prompt("Hello").to_json();
    assert_eq!(a, b);
}

#[test]
fn default_completion_omits_unset_options() {
    let m = parse(&Completion::default().to_json());
    assert_eq!(m.get("stream"), Some(&serde_json::Value::Bool(false)));
    assert_eq!(m.get("user"), Some(&serde_json::Value::String(String::new())));
    for key in ["temperature", "top_p", "n", "max_tokens", "suffix"] {
        assert!(!m.contains_key(key), "{} present", key);
    }
    assert_eq!(m.len(), 4);
    assert_eq!(
        Completion::new().to_json(),
        r#"{"model":"text-davinci-003","stream":false,"user":"","prompt":[]}"#
    );
}

#[test]
fn set_options_appear_in_payload() {
    let base = Base::new()
        .with_max_tokens(100)
        .with_temperature(Thousandths { value: 700 })
        .with_user("alice");
    let mut base = base;
    base.top_p = Some(Thousandths { value: 1500 });
    base.n = Some(3);
    base.stream = true;
    let request = Completion::new().with_prompt("p").with_suffix("end").with_base(base);
    let text = request.to_json();
    assert_eq!(
        text,
        r#"{"model":"text-davinci-003","temperature":0.700,"top_p":1.500,"stream":true,"n":3,"user":"alice","max_tokens":100,"prompt":["p"],"suffix":"end"}"#
    );
    let m = parse(&text);
    assert_eq!(m.get("temperature").unwrap().as_f64(), Some(0.7));
    assert_eq!(m.get("top_p").unwrap().as_f64(), Some(1.5));
}

#[test]
fn fraction_text_has_three_digits() {
    assert_eq!(Thousandths { value: 0 }.text(), "0.000");
    assert_eq!(Thousandths { value: 5 }.text(), "0.005");
    assert_eq!(Thousandths { value: 12345 }.text(), "12.345");
    assert_eq!(Thousandths { value: 2000 }.text(), "2.000");
}

#[test]
fn prompts_keep_order() {
    let request = Completion::new()
        .with_prompt("one")
        .with_prompts(vec!["two".to_string(), "three".to_string()]);
    assert_eq!(request.prompt, vec!["one", "two", "three"]);
    let m = parse(&request.to_json());
    assert_eq!(
        m.get("prompt").unwrap(),
        &serde_json::Value::Array(vec![
            serde_json::Value::String("one".into()),
            serde_json::Value::String("two".into()),
            serde_json::Value::String("three".into()),
        ])
    );
}

#[test]
fn strings_are_escaped() {
    let request = Completion::new().with_prompt("say \"hi\"\n\\ok");
    let text = request.to_json();
    assert!(text.contains(r#""prompt":["say \"hi\"\n\\ok"]"#), "{}", text);
    let m = parse(&text);
    assert_eq!(m.get("prompt").unwrap()[0], "say \"hi\"\n\\ok");
}

#[test]
fn chat_messages_keep_order() {
    let request = Chat::new().with_messages(vec![
        Message::from_content("a"),
        Message::from_content("b"),
        Message::from_content("c"),
    ]);
    let m = parse(&request.to_json());
    let contents: Vec<&str> = m
        .get("messages")
        .unwrap()
        .as_array()
        .unwrap()
        .iter()
        .map(|v| v.get("content").unwrap().as_str().unwrap())
        .collect();
    assert_eq!(contents, vec!["a", "b", "c"]);
}

#[test]
fn chat_with_three_messages_and_max_tokens() {
    let request = Chat::new()
        .with_messages(vec![
            Message::from_content("You're a linux expert and systems administrator."),
            Message::from_content("You're going to provide a short clever answer to my next question"),
            Message::from_content("What command would you use to find all files modified in the last day?"),
        ])
        .with_max_tokens(200);
    let text = request.to_json();
    assert!(text.contains(r#""max_tokens":200"#), "{}", text);
    let m = parse(&text);
    let messages = m.get("messages").unwrap().as_array().unwrap();
    assert_eq!(messages.len(), 3);
    let expected = [
        "You're a linux expert and systems administrator.",
        "You're going to provide a short clever answer to my next question",
        "What command would you use to find all files modified in the last day?",
    ];
    for (msg, want) in messages.iter().zip(expected.iter()) {
        assert_eq!(msg.get("role").unwrap(), "user");
        assert_eq!(msg.get("content").unwrap(), *want);
        assert!(msg.get("name").is_none());
    }
    assert_eq!(m.get("model").unwrap(), "gpt-4");
    assert!(!m.contains_key("temperature"));
}

#[test]
fn chat_message_with_name_and_role() {
    let request = Chat::new()
        .with_model(ChatModel::from_wire("my-model"))
        .with_message(Message::new("system", "be brief").with_name("ops"))
        .with_message(Message::from_content("hi").with_role("assistant"))
        .with_user("bob")
        .with_temperature(Thousandths { value: 1000 });
    assert_eq!(
        request.to_json(),
        r#"{"model":"my-model","temperature":1.000,"stream":false,"user":"bob","messages":[{"role":"system","content":"be brief","name":"ops"},{"role":"assistant","content":"hi"}]}"#
    );
}

#[test]
fn default_chat_payload() {
    assert_eq!(
        Chat::default().to_json(),
        r#"{"model":"gpt-4","stream":false,"user":"","messages":[]}"#
    );
    assert_eq!(Message::default().role.as_str(), "user");
}

#[test]
fn completion_model_in_payload() {
    let mut request = Completion::new().with_prompt("x");
    request.model = CompletionModel::from_wire("text-ada-001");
    let m = parse(&request.to_json());
    assert_eq!(m.get("model").unwrap(), "text-ada-001");
}

#[test]
fn control_characters_are_escaped() {
    let request = Completion::new().with_prompt("a\u{1}b\u{1f}\u{8}\u{c}\r\t/");
    let text = request.to_json();
    assert!(text.contains(r#""prompt":["a\u0001b\u001f\b\f\r\t/"]"#), "{}", text);
}

#[test]
fn large_counts_are_written_in_full() {
    let text = Completion::new().with_max_tokens(1234567890).to_json();
    assert!(text.contains(r#""max_tokens":1234567890"#), "{}", text);
    let text = Completion::new().with_max_tokens(0).to_json();
    assert!(text.contains(r#""max_tokens":0"#), "{}", text);
}
