use tvoice::openrouter::{
    interpret_response, is_success_status, normalize_text, ChatCompletionResponse, Choice,
    Message, MessageContent, MessagePart, OpenRouterConfig, TranscribeError,
    TranscriptionRequest, CHAT_COMPLETIONS_URL,
};

fn reply_with(content: Option<MessageContent>) -> ChatCompletionResponse {
    ChatCompletionResponse { choices: vec![Choice { message: Message { content } }] }
}

fn part(text: &str) -> MessagePart {
    MessagePart { text: Some(text.to_string()) }
}

fn config(referer: Option<&str>) -> OpenRouterConfig {
    OpenRouterConfig {
        api_key: "sk-test".to_string(),
        model: "openai/gpt-audio-mini".to_string(),
        prompt: "Transcribe".to_string(),
        app_title: "tvoice".to_string(),
        http_referer: referer.map(|r| r.to_string()),
    }
}

#[test]
fn extracts_string_content() {
    let response = reply_with(Some(MessageContent::Text("hello world".to_string())));
    assert_eq!(response.extract_text().as_deref(), Some("hello world"));
}

#[test]
fn extracts_part_content() {
    let response = reply_with(Some(MessageContent::Parts(vec![part("hello "), part("world")])));
    assert_eq!(response.extract_text().as_deref(), Some("hello world"));
}

#[test]
fn parts_without_text_are_skipped() {
    let response = reply_with(Some(MessageContent::Parts(vec![
        part("  a"),
        MessagePart { text: None },
        part("b  "),
    ])));
    assert_eq!(response.extract_text().as_deref(), Some("ab"));
}

#[test]
fn no_choices_no_content_or_blank_text_give_nothing() {
    assert_eq!(ChatCompletionResponse { choices: vec![] }.extract_text(), None);
    assert_eq!(reply_with(None).extract_text(), None);
    assert_eq!(reply_with(Some(MessageContent::Text(" \n\t ".to_string()))).extract_text(), None);
    assert_eq!(reply_with(Some(MessageContent::Parts(vec![]))).extract_text(), None);
}

#[test]
fn only_the_first_choice_counts() {
    let response = ChatCompletionResponse {
        choices: vec![
            Choice { message: Message { content: Some(MessageContent::Text("first".to_string())) } },
            Choice { message: Message { content: Some(MessageContent::Text("second".to_string())) } },
        ],
    };
    assert_eq!(response.extract_text().as_deref(), Some("first"));
}

#[test]
fn transcript_is_trimmed() {
    let response = reply_with(Some(MessageContent::Text("\u{3000} hi there\n".to_string())));
    let text = response.extract_text().unwrap();
    assert_eq!(text, "hi there");
    assert_eq!(text.trim(), text);
}

#[test]
fn normalize_text_trims_or_drops() {
    assert_eq!(normalize_text("  x y  ").as_deref(), Some("x y"));
    assert_eq!(normalize_text("   "), None);
    assert_eq!(normalize_text(""), None);
}

#[test]
fn request_carries_config_and_encoded_audio() {
    let request = TranscriptionRequest::for_audio(&config(None), b"hello", "m4a");
    assert_eq!(request.url, CHAT_COMPLETIONS_URL);
    assert_eq!(request.url, "https://openrouter.ai/api/v1/chat/completions");
    assert_eq!(request.model, "openai/gpt-audio-mini");
    assert_eq!(request.temperature, 0);
    assert_eq!(request.prompt, "Transcribe");
    assert_eq!(request.audio_data, "aGVsbG8=");
    assert_eq!(request.audio_format, "m4a");
    assert_eq!(
        request.headers,
        vec![
            ("Authorization".to_string(), "Bearer sk-test".to_string()),
            ("Content-Type".to_string(), "application/json".to_string()),
            ("X-Title".to_string(), "tvoice".to_string()),
        ]
    );
}

#[test]
fn request_sends_referer_when_configured() {
    let request = TranscriptionRequest::for_audio(&config(Some("https://example.com")), b"", "wav");
    assert_eq!(request.audio_data, "");
    assert_eq!(request.headers.len(), 4);
    assert_eq!(
        request.headers[3],
        ("HTTP-Referer".to_string(), "https://example.com".to_string())
    );
}

#[test]
fn base64_pads_partial_groups() {
    let c = config(None);
    assert_eq!(TranscriptionRequest::for_audio(&c, b"hel", "m4a").audio_data, "aGVs");
    assert_eq!(TranscriptionRequest::for_audio(&c, b"abc", "m4a").audio_data, "YWJj");
    assert_eq!(TranscriptionRequest::for_audio(&c, &[0, 16, 131, 16, 81, 135, 32, 146, 139, 48, 211, 143, 65, 20, 147, 81, 85, 151, 97, 150, 155, 113, 215, 159, 130, 24, 163, 146, 89, 167, 162, 154, 171, 178, 219, 175, 195, 28, 179, 211, 93, 183, 227, 158, 187, 243, 223, 191], "m4a").audio_data, "ABCDEFGHIJKLMNOPQRSTUVWXYZabcdefghijklmnopqrstuvwxyz0123456789+/");
    assert_eq!(TranscriptionRequest::for_audio(&c, b"hell", "m4a").audio_data, "aGVsbA==");
    assert_eq!(TranscriptionRequest::for_audio(&c, &[0xff, 0xfe], "m4a").audio_data, "//4=");
}

#[test]
fn success_status_range() {
    assert!(!is_success_status(199));
    assert!(is_success_status(200));
    assert!(is_success_status(299));
    assert!(!is_success_status(300));
    assert!(!is_success_status(401));
}

#[test]
fn error_status_uses_error_message() {
    let r = interpret_response(401, "{}", Some("No auth credentials found".to_string()), None);
    match r {
        Err(TranscribeError::Api { status, message }) => {
            assert_eq!(status, 401);
            assert_eq!(message, "No auth credentials found");
        }
        other => panic!("unexpected {:?}", other),
    }
}

#[test]
fn error_status_falls_back_to_trimmed_body() {
    let r = interpret_response(502, "  Bad gateway\n", None, None);
    match r {
        Err(TranscribeError::Api { status, message }) => {
            assert_eq!(status, 502);
            assert_eq!(message, "Bad gateway");
        }
        other => panic!("unexpected {:?}", other),
    }
}

#[test]
fn success_without_completion_is_invalid() {
    assert!(matches!(
        interpret_response(200, "not json", None, None),
        Err(TranscribeError::InvalidResponse)
    ));
}

#[test]
fn success_without_text_is_missing_transcript() {
    assert!(matches!(
        interpret_response(200, "{}", None, Some(reply_with(None))),
        Err(TranscribeError::MissingTranscript)
    ));
}

#[test]
fn success_with_text_gives_transcript() {
    let reply = reply_with(Some(MessageContent::Text(" hello world ".to_string())));
    assert_eq!(interpret_response(200, "", None, Some(reply)).unwrap(), "hello world");
}
