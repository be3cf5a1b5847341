use pw_core::chat::{
    default_n, ChatCompletionChunk, ChatCompletionResponse, ChunkDelta, ContentPart, ErrorResponse,
    ImageUrl, Message, MessageContent, ResponseFormat, Role, Tool, ToolChoice, Usage,
};

#[test]
fn test_message_constructors() {
    let sys = Message::system("You are helpful");
    assert_eq!(sys.role, Role::System);
    assert_eq!(sys.text(), Some("You are helpful"));

    let user = Message::user("Hello");
    assert_eq!(user.role, Role::User);

    let asst = Message::assistant("Hi there!");
    assert_eq!(asst.role, Role::Assistant);

    let tool = Message::tool("call_123", r#"{"result": 42}"#);
    assert_eq!(tool.role, Role::Tool);
    assert_eq!(tool.tool_call_id, Some("call_123".to_string()));
}

#[test]
fn test_response_creation() {
    let response = ChatCompletionResponse::new("gpt-4", "Hello!");

    assert!(response.id.starts_with("chatcmpl-"));
    assert_eq!(response.object, "chat.completion");
    assert_eq!(response.text(), Some("Hello!"));
}

#[test]
fn test_message_content_variants() {
    let text = MessageContent::Text("hello".to_string());
    assert_eq!(text.as_text(), Some("hello"));

    let parts = MessageContent::Parts(vec![ContentPart::Text { text: "world".to_string() }]);
    assert_eq!(parts.as_text(), Some("world"));
}

fn image(url: &str) -> ContentPart {
    ContentPart::ImageUrl { image_url: ImageUrl { url: url.to_string(), detail: None } }
}

#[test]
fn test_content_first_text_part_wins() {
    let parts = MessageContent::Parts(vec![
        image("http://a/1.png"),
        ContentPart::Text { text: "first".to_string() },
        ContentPart::Text { text: "second".to_string() },
    ]);
    assert_eq!(parts.as_text(), Some("first"));
    assert_eq!(parts.into_text(), Some("first".to_string()));
}

#[test]
fn test_content_without_text_parts() {
    let parts = MessageContent::Parts(vec![image("http://a/1.png")]);
    assert_eq!(parts.as_text(), None);
    assert_eq!(parts.into_text(), None);

    let empty = MessageContent::Parts(vec![]);
    assert_eq!(empty.as_text(), None);
    assert_eq!(empty.into_text(), None);
}

#[test]
fn test_into_text_plain() {
    let text = MessageContent::Text("plain".to_string());
    assert_eq!(text.into_text(), Some("plain".to_string()));
}

#[test]
fn test_content_from_conversions() {
    let a: MessageContent = "abc".into();
    assert_eq!(a.as_text(), Some("abc"));
    let b: MessageContent = String::from("xyz").into();
    assert_eq!(b.as_text(), Some("xyz"));
}

#[test]
fn test_message_without_content_has_no_text() {
    let mut m = Message::user("gone");
    m.content = None;
    assert_eq!(m.text(), None);
}

#[test]
fn test_text_messages_read_back() {
    for (m, role) in [
        (Message::system("s"), Role::System),
        (Message::user("u"), Role::User),
        (Message::assistant("a"), Role::Assistant),
        (Message::tool("id", "t"), Role::Tool),
    ] {
        assert_eq!(m.role, role);
        assert!(m.name.is_none());
        assert!(m.tool_calls.is_none());
        let expected = match role {
            Role::System => "s",
            Role::User => "u",
            Role::Assistant => "a",
            Role::Tool => "t",
        };
        assert_eq!(m.text(), Some(expected));
    }
    assert_eq!(Message::user("u").tool_call_id, None);
}

#[test]
fn test_response_from_parts_id_format() {
    let r = ChatCompletionResponse::from_parts(
        0xa1a2a3a4b1b2c1c2d1d2d3d4d5d6d7d8,
        1_700_000_000,
        "gpt-4",
        "Hello!",
    );
    assert_eq!(r.id, "chatcmpl-a1a2a3a4-b1b2-c1c2-d1d2-d3d4d5d6d7d8");
    assert_eq!(r.created, 1_700_000_000);
    assert_eq!(r.model, "gpt-4");
    assert_eq!(r.choices.len(), 1);
    assert_eq!(r.choices[0].index, 0);
    assert_eq!(r.choices[0].message.role, Role::Assistant);
    assert_eq!(r.choices[0].finish_reason, Some("stop".to_string()));
    assert!(r.choices[0].logprobs.is_none());
    assert_eq!(r.usage.total_tokens, 0);
    assert!(r.system_fingerprint.is_none());
    assert_eq!(r.text(), Some("Hello!"));
}

#[test]
fn test_response_from_parts_small_uuid() {
    let r = ChatCompletionResponse::from_parts(0xff, 0, "m", "c");
    assert_eq!(r.id, "chatcmpl-00000000-0000-0000-0000-0000000000ff");
}

#[test]
fn test_response_fresh_ids_have_uuid_shape() {
    let r = ChatCompletionResponse::new("m", "c");
    assert_eq!(r.id.len(), "chatcmpl-".len() + 36);
    let tail: Vec<char> = r.id["chatcmpl-".len()..].chars().collect();
    for (i, ch) in tail.iter().enumerate() {
        if i == 8 || i == 13 || i == 18 || i == 23 {
            assert_eq!(*ch, '-');
        } else {
            assert!(ch.is_ascii_hexdigit() && !ch.is_ascii_uppercase());
        }
    }
    assert_eq!(tail[14], '4');
    assert!(['8', '9', 'a', 'b'].contains(&tail[19]));
}

#[test]
fn test_response_without_choices_has_no_text() {
    let mut r = ChatCompletionResponse::new("m", "c");
    r.choices.clear();
    assert_eq!(r.text(), None);
}

#[test]
fn test_chunk_from_parts() {
    let delta = ChunkDelta { role: Some(Role::Assistant), content: Some("Hi".to_string()), tool_calls: None };
    let c = ChatCompletionChunk::from_parts(42, "chatcmpl-1", "gpt-4", delta, Some("stop".to_string()));
    assert_eq!(c.id, "chatcmpl-1");
    assert_eq!(c.object, "chat.completion.chunk");
    assert_eq!(c.created, 42);
    assert_eq!(c.model, "gpt-4");
    assert_eq!(c.choices.len(), 1);
    assert_eq!(c.choices[0].index, 0);
    assert_eq!(c.choices[0].delta.content, Some("Hi".to_string()));
    assert_eq!(c.choices[0].finish_reason, Some("stop".to_string()));
    assert!(c.system_fingerprint.is_none());

    let now = ChatCompletionChunk::new("id", "model", ChunkDelta::default(), None);
    assert_eq!(now.object, "chat.completion.chunk");
    assert!(now.created > 0);
    assert!(now.choices[0].delta.role.is_none());
}

#[test]
fn test_defaults() {
    assert_eq!(default_n(), 1);
    let u = Usage::default();
    assert_eq!((u.prompt_tokens, u.completion_tokens, u.total_tokens), (0, 0, 0));
    let d = ChunkDelta::default();
    assert!(d.role.is_none() && d.content.is_none() && d.tool_calls.is_none());
}

#[test]
fn test_response_formats_and_tools() {
    assert_eq!(ResponseFormat::json().format_type, "json_object");
    assert_eq!(ResponseFormat::text().format_type, "text");

    let t = Tool::function("get_weather", Some("Weather".to_string()), None);
    assert_eq!(t.tool_type, "function");
    assert_eq!(t.function.name, "get_weather");
    assert_eq!(t.function.description, Some("Weather".to_string()));
    assert!(t.function.parameters.is_none());
}

#[test]
fn test_tool_choice_modes() {
    for (c, expected) in [
        (ToolChoice::none(), "none"),
        (ToolChoice::auto(), "auto"),
        (ToolChoice::required(), "required"),
    ] {
        match c {
            ToolChoice::Mode(m) => assert_eq!(m, expected),
            ToolChoice::Specific { .. } => panic!("expected a mode"),
        }
    }
    match ToolChoice::function("get_weather") {
        ToolChoice::Specific { tool_type, function } => {
            assert_eq!(tool_type, "function");
            assert_eq!(function.name, "get_weather");
        }
        ToolChoice::Mode(_) => panic!("expected a function"),
    }
}

#[test]
fn test_error_response() {
    let e = ErrorResponse::new("bad model", "invalid_request_error");
    assert_eq!(e.error.message, "bad model");
    assert_eq!(e.error.error_type, "invalid_request_error");
    assert!(e.error.param.is_none());
    assert!(e.error.code.is_none());
}
