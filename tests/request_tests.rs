use snapcode::request::{authorization_value, envelope, ChatRequest};

fn parsed(body: &str) -> serde_json::Value {
    serde_json::from_str(body).expect("the body is JSON")
}

#[test]
fn authorization_is_bearer_token() {
    assert_eq!(authorization_value("sk-test"), "Bearer sk-test");
    assert_eq!(authorization_value(""), "Bearer ");
}

#[test]
fn request_targets_endpoint() {
    let r = ChatRequest::new("sk-test", "data:image/png;base64,AAAA");
    assert_eq!(r.url, "https://api.openai.com/v1/chat/completions");
    assert_eq!(r.authorization, "Bearer sk-test");
    assert_eq!(r.body, envelope("data:image/png;base64,AAAA"));
}

#[test]
fn envelope_has_model_and_messages() {
    let v = parsed(&envelope("data:image/png;base64,AAAA"));
    assert_eq!(v["model"], "gpt-5.1");
    let messages = v["messages"].as_array().unwrap();
    assert_eq!(messages.len(), 2);
    assert_eq!(messages[0]["role"], "system");
    assert!(messages[0]["content"]
        .as_str()
        .unwrap()
        .starts_with("You are an expert at creating pixel-perfect HTML"));
    assert_eq!(messages[1]["role"], "user");
    let parts = messages[1]["content"].as_array().unwrap();
    assert_eq!(parts.len(), 2);
    assert_eq!(parts[0]["type"], "text");
    assert!(parts[0]["text"]
        .as_str()
        .unwrap()
        .starts_with("Convert this screenshot into pixel-perfect HTML code using Tailwind CSS."));
    assert_eq!(parts[1]["type"], "image_url");
}

#[test]
fn image_payload_round_trips() {
    let image = "data:image/png;base64,iVBORw0KGgoAAAANSUhEUgAAAAEAAAABCAYAAAAfFcSJAAAADUlEQVR42mNk+M9QDwADhgGAWjR9awAAAABJRU5ErkJggg==";
    let v = parsed(&envelope(image));
    assert_eq!(v["messages"][1]["content"][1]["image_url"]["url"].as_str(), Some(image));
}

#[test]
fn image_payload_with_json_specials_round_trips() {
    let image = "quote \" backslash \\ newline \n tab \t unicode \u{e9}\u{1f600}";
    let body = envelope(image);
    assert!(!body.contains(image));
    let v = parsed(&body);
    assert_eq!(v["messages"][1]["content"][1]["image_url"]["url"].as_str(), Some(image));
}

#[test]
fn empty_image_payload_is_sent_as_is() {
    let v = parsed(&envelope(""));
    assert_eq!(v["messages"][1]["content"][1]["image_url"]["url"].as_str(), Some(""));
}
