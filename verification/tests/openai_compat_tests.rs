use claw10::openai_compat::{
    wire_message, ChatMessageData, chunk_error_event, chunk_events, classify_sse_line, read_error_event, reply_from_response, CompatChoiceData,
    CompatMessageData, CompatResponseData, FinishReason, MessageRole, OpenAiCompatibleProvider, RawToolCall, SseLine,
    StreamChoiceData, StreamChunkData, StreamEvent, ToolCallDelta, UsageCounts,
};
use claw10::router::{ModelError, ModelProfile, ModelRegistry};

fn profile(id: &str, model_name: &str) -> ModelProfile {
    ModelProfile {
        id: id.into(),
        provider: "p".into(),
        model_name: model_name.into(),
        context_window: 8_192,
        max_output_tokens: 1_024,
        cost_per_1m_input: 0,
        cost_per_1m_output: 0,
        suitable_for: vec![],
    }
}

#[test]
fn providers_keep_a_clean_base_url() {
    let p = OpenAiCompatibleProvider::with_config("local", "http://localhost:8080/v1//", "k".into(), vec![]);
    assert_eq!(p.name(), "local");
    assert_eq!(p.api_key(), "k");
    assert_eq!(p.chat_url(), "http://localhost:8080/v1/chat/completions");
    assert_eq!(p.models_url(), "http://localhost:8080/v1/models");
    let env = vec![("LOCAL_KEY".to_string(), "secret".to_string())];
    let q = OpenAiCompatibleProvider::new("local", "http://h/", "LOCAL_KEY", &env);
    assert_eq!(q.api_key(), "secret");
    assert_eq!(q.chat_url(), "http://h/chat/completions");
    let r = OpenAiCompatibleProvider::new("local", "http://h", "MISSING", &env);
    assert_eq!(r.api_key(), "");
}

#[test]
fn profiles_are_found_by_id_or_model_name() {
    let p = OpenAiCompatibleProvider::with_config("p", "u", String::new(), vec![])
        .with_models(vec![profile("a", "alpha"), profile("b", "beta")]);
    assert_eq!(p.supported_models(), vec!["a", "b"]);
    assert_eq!(p.get_profile("beta").unwrap().id, "b");
    assert_eq!(p.get_profile("a").unwrap().model_name, "alpha");
    assert!(p.get_profile("gamma").is_none());

    let mut reg = ModelRegistry::new();
    reg.register_provider(p);
    assert_eq!(reg.list_providers(), vec!["p"]);
    assert_eq!(reg.list_profiles().len(), 2);
}

#[test]
fn api_names_map_to_reasons_and_roles() {
    assert_eq!(OpenAiCompatibleProvider::map_finish_reason("stop"), FinishReason::Stop);
    assert_eq!(OpenAiCompatibleProvider::map_finish_reason("length"), FinishReason::Length);
    assert_eq!(OpenAiCompatibleProvider::map_finish_reason("tool_calls"), FinishReason::ToolCalls);
    assert_eq!(OpenAiCompatibleProvider::map_finish_reason("content_filter"), FinishReason::ContentFilter);
    assert_eq!(OpenAiCompatibleProvider::map_finish_reason("other"), FinishReason::Error);
    assert_eq!(OpenAiCompatibleProvider::map_role("system"), MessageRole::System);
    assert_eq!(OpenAiCompatibleProvider::map_role("assistant"), MessageRole::Assistant);
    assert_eq!(OpenAiCompatibleProvider::map_role("tool"), MessageRole::Tool);
    assert_eq!(OpenAiCompatibleProvider::map_role("user"), MessageRole::User);
    assert_eq!(OpenAiCompatibleProvider::map_role("narrator"), MessageRole::User);
}

fn choice(content: Option<&str>, finish: Option<&str>) -> StreamChoiceData {
    StreamChoiceData {
        content: content.map(|c| c.to_string()),
        tool_calls: None,
        finish_reason: finish.map(|f| f.to_string()),
    }
}

fn data(line: &str) -> Option<String> {
    match classify_sse_line(line) {
        SseLine::Data(d) => Some(d),
        _ => None,
    }
}

#[test]
fn event_stream_lines_are_sorted() {
    assert!(matches!(classify_sse_line(""), SseLine::Blank));
    assert!(matches!(classify_sse_line("   \r\n"), SseLine::Blank));
    assert!(matches!(classify_sse_line(": keep-alive"), SseLine::Other));
    assert!(matches!(classify_sse_line("data:x"), SseLine::Other));
    assert!(matches!(classify_sse_line("data: [DONE]"), SseLine::Done));
    assert!(matches!(classify_sse_line("data:  [DONE]  \n"), SseLine::Done));
    assert_eq!(data("data: {\"a\":1}"), Some("{\"a\":1}".to_string()));
    assert_eq!(data("  data: x  "), Some("x".to_string()));
}

#[test]
fn chunks_become_events() {
    let c = StreamChunkData { choices: vec![choice(Some("Hel"), None)], usage: None };
    assert_eq!(chunk_events(&c), (vec![StreamEvent::TextDelta("Hel".into())], false));

    let tool = StreamChoiceData {
        content: Some(String::new()),
        tool_calls: Some(vec![ToolCallDelta { index: None, id: Some("c1".into()), name: Some("f".into()), arguments: None }]),
        finish_reason: Some("null".into()),
    };
    let c = StreamChunkData { choices: vec![tool], usage: None };
    assert_eq!(
        chunk_events(&c),
        (vec![StreamEvent::ToolCallDelta { index: 0, id: Some("c1".into()), name: Some("f".into()), arguments: String::new() }], false)
    );

    let usage = UsageCounts { prompt_tokens: Some(3), completion_tokens: Some(4), total_tokens: None };
    let c = StreamChunkData { choices: vec![choice(Some("!"), Some("stop"))], usage: Some(usage) };
    assert_eq!(
        chunk_events(&c),
        (
            vec![
                StreamEvent::TextDelta("!".into()),
                StreamEvent::Usage { prompt_tokens: 3, completion_tokens: 4, total_tokens: 7 },
                StreamEvent::Done
            ],
            true
        )
    );
    let c = StreamChunkData { choices: vec![choice(None, Some("length"))], usage: None };
    assert_eq!(chunk_events(&c), (vec![StreamEvent::Done], true));
    let c = StreamChunkData { choices: vec![choice(Some("a"), Some(""))], usage: None };
    assert_eq!(chunk_events(&c), (vec![StreamEvent::TextDelta("a".into())], false));
}

#[test]
fn stream_failures_become_events() {
    assert_eq!(read_error_event("error decoding response body"), StreamEvent::Done);
    assert_eq!(read_error_event("connection closed before message completed"), StreamEvent::Done);
    assert_eq!(read_error_event("timeout"), StreamEvent::Error("stream read error: timeout".into()));
    assert_eq!(chunk_error_event("bad"), StreamEvent::Error("failed to parse stream chunk: bad".into()));
}

#[test]
fn replies_take_the_first_choice() {
    let empty = CompatResponseData { model: None, choices: vec![], usage: None };
    match reply_from_response(&empty, "m0") {
        Err(ModelError::ApiError(m)) => assert_eq!(m, "no choices in response"),
        _ => panic!("expected an error"),
    }

    let bare = CompatResponseData {
        model: None,
        choices: vec![CompatChoiceData { message: None, finish_reason: None }],
        usage: None,
    };
    let r = reply_from_response(&bare, "m0").ok().unwrap();
    assert_eq!(r.role, MessageRole::Assistant);
    assert_eq!(r.content, "");
    assert!(r.tool_calls.is_none());
    assert_eq!(r.finish_reason, FinishReason::Stop);
    assert_eq!((r.prompt_tokens, r.completion_tokens, r.total_tokens), (0, 0, 0));
    assert_eq!(r.model_used, "m0");

    let full = CompatResponseData {
        model: Some("m1".into()),
        choices: vec![CompatChoiceData {
            message: Some(CompatMessageData {
                role: Some("tool".into()),
                content: Some("x".into()),
                tool_calls: Some(vec![RawToolCall { id: "c".into(), name: "f".into(), arguments: "{}".into() }]),
            }),
            finish_reason: Some("length".into()),
        }],
        usage: Some(UsageCounts { prompt_tokens: Some(1), completion_tokens: Some(2), total_tokens: Some(10) }),
    };
    let r = reply_from_response(&full, "m0").ok().unwrap();
    assert_eq!(r.role, MessageRole::Tool);
    assert_eq!(r.content, "x");
    let calls = r.tool_calls.unwrap();
    assert_eq!((calls[0].id.as_str(), calls[0].name.as_str(), calls[0].arguments.as_str()), ("c", "f", "{}"));
    assert_eq!(r.finish_reason, FinishReason::Length);
    assert_eq!((r.prompt_tokens, r.completion_tokens, r.total_tokens), (1, 2, 10));
    assert_eq!(r.model_used, "m1");
}

fn api_message(e: Option<ModelError>) -> String {
    match e {
        Some(ModelError::ApiError(m)) => m,
        _ => panic!("expected an API error"),
    }
}

#[test]
fn failed_calls_become_errors() {
    let keyless = OpenAiCompatibleProvider::with_config("local", "http://h", String::new(), vec![]);
    assert_eq!(api_message(keyless.missing_key_error(true)), "API key not set for provider 'local'");
    assert_eq!(
        api_message(keyless.missing_key_error(false)),
        "API key not set for provider 'local'. Set the corresponding env var or configure via TUI"
    );
    let p = OpenAiCompatibleProvider::with_config("local", "http://h", "k".into(), vec![]);
    assert!(p.missing_key_error(true).is_none());
    assert!(p.http_error(200, "").is_none());
    assert!(p.http_error(204, "").is_none());
    assert!(matches!(p.http_error(429, "x"), Some(ModelError::RateLimited(30))));
    assert_eq!(api_message(p.http_error(401, "nope")), "local authentication failed (401): nope");
    assert_eq!(api_message(p.http_error(500, "boom")), "local API error (500): boom");
    assert_eq!(api_message(p.http_error(199, "")), "local API error (199): ");
    assert!(p.models_http_error(200).is_none());
    assert_eq!(api_message(p.models_http_error(404)), "local models API returned HTTP 404");
}

#[test]
fn listed_models_keep_known_profiles() {
    let p = OpenAiCompatibleProvider::with_config(
        "local",
        "http://h",
        "k".into(),
        vec![profile("a", "first"), profile("b", "bee"), profile("a", "second")],
    );
    let merged = p.merge_fetched_models(&vec!["a".to_string(), "zz".to_string()]);
    assert_eq!(merged.len(), 2);
    assert_eq!(merged[0].model_name, "second");
    assert_eq!(merged[1].id, "zz");
    assert_eq!(merged[1].provider, "local");
    assert_eq!(merged[1].model_name, "zz");
    assert_eq!(merged[1].context_window, 128_000);
    assert_eq!(merged[1].max_output_tokens, 8_192);
    assert_eq!((merged[1].cost_per_1m_input, merged[1].cost_per_1m_output), (0, 0));
    assert_eq!(merged[1].suitable_for, vec!["general".to_string()]);
}

#[test]
fn messages_go_on_the_wire_by_role_name() {
    let m = ChatMessageData { role: MessageRole::Assistant, content: String::new(), tool_calls: Some(vec![RawToolCall { id: "c".into(), name: "f".into(), arguments: "{}".into() }]), tool_call_id: None, name: None };
    let w = wire_message(&m);
    assert_eq!(w.role, "assistant");
    assert!(w.content.is_none());
    assert_eq!(w.tool_calls.unwrap()[0].arguments, "{}");
    let t = ChatMessageData { role: MessageRole::Tool, content: String::new(), tool_calls: None, tool_call_id: Some("c".into()), name: Some("f".into()) };
    let w = wire_message(&t);
    assert_eq!(w.role, "tool");
    assert_eq!(w.content, Some(String::new()));
    assert_eq!(w.tool_call_id, Some("c".to_string()));
    assert_eq!(w.name, Some("f".to_string()));
    let u = ChatMessageData { role: MessageRole::User, content: "hi".into(), tool_calls: None, tool_call_id: None, name: None };
    assert_eq!(wire_message(&u).content, Some("hi".to_string()));
    assert_eq!(wire_message(&ChatMessageData { role: MessageRole::System, content: "s".into(), tool_calls: None, tool_call_id: None, name: None }).role, "system");
}
