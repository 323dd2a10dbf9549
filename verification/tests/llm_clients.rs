use ikoro::config::LlmConfig;
use ikoro::llm::anthropic::{
    convert_messages, convert_tools, response_from_blocks, AnthropicContent, ContentBlock,
    ResponseBlock,
};
use ikoro::llm::openai_compatible::first_choice;
use ikoro::llm::retry::{AttemptOutcome, RetryPolicy, RetryStep, MAX_RETRIES};
use ikoro::llm::{
    create_client, default_base_url, FunctionCall, FunctionDef, LlmResponse, Message, ProviderKind,
    ToolCall, ToolDef,
};

fn status(code: u16, status: &str, body: &str) -> AttemptOutcome {
    AttemptOutcome::Status { code, status: status.to_string(), body: body.to_string() }
}

fn call(id: &str, name: &str, arguments: &str) -> ToolCall {
    ToolCall {
        id: id.to_string(),
        type_: "function".to_string(),
        function: FunctionCall { name: name.to_string(), arguments: arguments.to_string() },
    }
}

#[test]
fn message_constructors_set_role_and_fields() {
    let m = Message::system("s");
    assert_eq!((m.role.as_str(), m.content.as_deref()), ("system", Some("s")));
    assert!(m.tool_calls.is_none() && m.tool_call_id.is_none());
    let m = Message::user("u");
    assert_eq!((m.role.as_str(), m.content.as_deref()), ("user", Some("u")));
    let m = Message::assistant("a");
    assert_eq!((m.role.as_str(), m.content.as_deref()), ("assistant", Some("a")));
    assert!(m.tool_calls.is_none());
    let m = Message::assistant_with_tool_calls(None, vec![call("t1", "f", "{}")]);
    assert_eq!(m.role, "assistant");
    assert_eq!(m.content, None);
    assert_eq!(m.tool_calls.as_ref().unwrap().len(), 1);
    let m = Message::tool_result("t1", "out");
    assert_eq!((m.role.as_str(), m.content.as_deref()), ("tool", Some("out")));
    assert_eq!(m.tool_call_id.as_deref(), Some("t1"));
    let copy = m.clone();
    assert_eq!(copy.tool_call_id.as_deref(), Some("t1"));
    assert_eq!(copy.content.as_deref(), Some("out"));
}

#[test]
fn good_answer_is_accepted() {
    let (_, step) = RetryPolicy::new(MAX_RETRIES).on_outcome(status(200, "200 OK", "{}"));
    assert!(matches!(step, RetryStep::Accept));
    let (_, step) = RetryPolicy::new(MAX_RETRIES).on_outcome(status(299, "299", ""));
    assert!(matches!(step, RetryStep::Accept));
}

#[test]
fn transient_failures_are_retried_with_doubling_waits() {
    let policy = RetryPolicy::new(2);
    let (policy, step) = policy.on_outcome(AttemptOutcome::Network("timeout".to_string()));
    assert!(matches!(step, RetryStep::Retry { delay_secs: 1 }));
    let (policy, step) = policy.on_outcome(status(429, "429 Too Many Requests", "slow down"));
    assert!(matches!(step, RetryStep::Retry { delay_secs: 2 }));
    let (_, step) = policy.on_outcome(status(503, "503 Service Unavailable", "down"));
    match step {
        RetryStep::Fail(e) => assert_eq!(e, "LLM API error (503 Service Unavailable): down"),
        other => panic!("expected the last error, got {:?}", other),
    }
}

#[test]
fn exhausted_network_errors_surface_the_last_error() {
    let mut policy = RetryPolicy::new(MAX_RETRIES);
    let mut sends = 1;
    loop {
        let (next, step) = policy.on_outcome(AttemptOutcome::Network(format!("try {}", sends)));
        policy = next;
        match step {
            RetryStep::Retry { .. } => sends += 1,
            RetryStep::Fail(e) => {
                assert_eq!(e, "Failed to call LLM API: try 3");
                break;
            }
            RetryStep::Accept => panic!("nothing was accepted"),
        }
    }
    assert_eq!(sends, 3);
}

#[test]
fn other_failures_are_not_retried() {
    for code in [400u16, 401, 403, 404, 422, 300, 199, 600] {
        let (_, step) = RetryPolicy::new(2).on_outcome(status(code, "status", "body"));
        match step {
            RetryStep::Fail(e) => assert_eq!(e, "LLM API error (status): body"),
            other => panic!("expected a hard failure for {}, got {:?}", code, other),
        }
    }
    for code in [429u16, 500, 502, 599] {
        let (_, step) = RetryPolicy::new(2).on_outcome(status(code, "s", "b"));
        assert!(matches!(step, RetryStep::Retry { delay_secs: 1 }));
    }
}

#[test]
fn waits_double_up_to_an_hour() {
    let mut policy = RetryPolicy::new(20);
    let mut waits = vec![];
    for _ in 0..14 {
        let (next, step) = policy.on_outcome(AttemptOutcome::Network("x".to_string()));
        policy = next;
        match step {
            RetryStep::Retry { delay_secs } => waits.push(delay_secs),
            other => panic!("expected a retry, got {:?}", other),
        }
    }
    assert_eq!(waits, vec![1, 2, 4, 8, 16, 32, 64, 128, 256, 512, 1024, 2048, 3600, 3600]);
}

#[test]
fn no_retries_allowed_fails_at_once() {
    let (_, step) = RetryPolicy::new(0).on_outcome(AttemptOutcome::Network("x".to_string()));
    assert!(matches!(step, RetryStep::Fail(_)));
}

#[test]
fn providers_have_their_usual_addresses() {
    assert_eq!(default_base_url("openai"), "https://api.openai.com/v1");
    assert_eq!(default_base_url("minimax"), "https://api.minimaxi.chat/v1");
    assert_eq!(default_base_url("openrouter"), "https://openrouter.ai/api/v1");
    assert_eq!(default_base_url("google"), "https://generativelanguage.googleapis.com/v1beta/openai");
    assert_eq!(default_base_url("groq"), "https://api.groq.com/openai/v1");
    assert_eq!(default_base_url("together"), "https://api.together.xyz/v1");
    assert_eq!(default_base_url("deepseek"), "https://api.deepseek.com/v1");
    assert_eq!(default_base_url("something"), "https://api.openai.com/v1");
}

fn llm_config(provider: &str, base_url: Option<&str>) -> LlmConfig {
    LlmConfig {
        provider: provider.to_string(),
        base_url: base_url.map(|s| s.to_string()),
        model: "m".to_string(),
        api_key: "k".to_string(),
        max_tokens: 8192,
    }
}

#[test]
fn client_is_chosen_by_the_provider() {
    let c = create_client(&llm_config("anthropic", None));
    assert_eq!(c.kind, ProviderKind::AnthropicStyle);
    assert_eq!(c.url, "https://api.anthropic.com/v1/messages");
    let c = create_client(&llm_config("openrouter", None));
    assert_eq!(c.kind, ProviderKind::OpenAICompatible);
    assert_eq!(c.url, "https://openrouter.ai/api/v1/chat/completions");
    let c = create_client(&llm_config("groq", Some("http://localhost:8080/v1///")));
    assert_eq!(c.url, "http://localhost:8080/v1/chat/completions");
    assert_eq!((c.model.as_str(), c.api_key.as_str(), c.max_tokens), ("m", "k", 8192));
    let c = create_client(&llm_config("anthropic", Some("http://proxy/")));
    assert_eq!(c.url, "http://proxy/v1/messages");
}

#[test]
fn first_choice_is_the_answer() {
    let a = LlmResponse { content: Some("one".to_string()), tool_calls: vec![] };
    let b = LlmResponse { content: Some("two".to_string()), tool_calls: vec![] };
    assert_eq!(first_choice(vec![a, b]).unwrap().content.as_deref(), Some("one"));
    assert_eq!(first_choice(vec![]).unwrap_err(), "No choices in LLM response");
}

#[test]
fn system_messages_are_joined_beside_the_turns() {
    let messages = vec![
        Message::system("prompt"),
        Message::system("summary"),
        Message::user("hi"),
        Message::assistant("hello"),
    ];
    let (system, turns) = convert_messages(&messages);
    assert_eq!(system.as_deref(), Some("prompt\n\nsummary"));
    assert_eq!(turns.len(), 2);
    assert_eq!(turns[0].role, "user");
    assert!(matches!(&turns[0].content, AnthropicContent::Text(t) if t == "hi"));
    assert_eq!(turns[1].role, "assistant");
    match &turns[1].content {
        AnthropicContent::Blocks(b) => {
            assert_eq!(b.len(), 1);
            assert!(matches!(&b[0], ContentBlock::Text { text } if text == "hello"));
        }
        other => panic!("expected blocks, got {:?}", other),
    }
}

#[test]
fn consecutive_tool_results_share_one_user_turn() {
    let messages = vec![
        Message::user("go"),
        Message::assistant_with_tool_calls(
            Some("".to_string()),
            vec![call("a", "f", "{\"x\":1}"), call("b", "g", "not json")],
        ),
        Message::tool_result("a", "one"),
        Message::tool_result("b", "two"),
        Message::assistant_with_tool_calls(None, vec![]),
        Message::tool_result("c", "three"),
        Message { role: "other".to_string(), content: None, tool_calls: None, tool_call_id: None },
        Message::tool_result("d", "four"),
        Message::user("thanks"),
        Message::tool_result("e", "five"),
    ];
    let (system, turns) = convert_messages(&messages);
    assert_eq!(system, None);
    let roles: Vec<&str> = turns.iter().map(|t| t.role.as_str()).collect();
    assert_eq!(roles, vec!["user", "assistant", "user", "assistant", "user", "user", "user"]);
    match &turns[1].content {
        AnthropicContent::Blocks(b) => {
            assert_eq!(b.len(), 2);
            assert!(matches!(&b[0], ContentBlock::ToolUse { id, name, input }
                if id == "a" && name == "f" && input == "{\"x\":1}"));
            assert!(matches!(&b[1], ContentBlock::ToolUse { id, name, input }
                if id == "b" && name == "g" && input == "{}"));
        }
        other => panic!("expected blocks, got {:?}", other),
    }
    match &turns[2].content {
        AnthropicContent::Blocks(b) => {
            assert_eq!(b.len(), 2);
            assert!(matches!(&b[0], ContentBlock::ToolResult { tool_use_id, content }
                if tool_use_id == "a" && content == "one"));
            assert!(matches!(&b[1], ContentBlock::ToolResult { tool_use_id, content }
                if tool_use_id == "b" && content == "two"));
        }
        other => panic!("expected blocks, got {:?}", other),
    }
    match &turns[3].content {
        AnthropicContent::Blocks(b) => {
            assert_eq!(b.len(), 1);
            assert!(matches!(&b[0], ContentBlock::Text { text } if text.is_empty()));
        }
        other => panic!("expected blocks, got {:?}", other),
    }
    match &turns[4].content {
        AnthropicContent::Blocks(b) => assert_eq!(b.len(), 2),
        other => panic!("expected blocks, got {:?}", other),
    }
    assert!(matches!(&turns[5].content, AnthropicContent::Text(t) if t == "thanks"));
    match &turns[6].content {
        AnthropicContent::Blocks(b) => assert_eq!(b.len(), 1),
        other => panic!("expected blocks, got {:?}", other),
    }
}

#[test]
fn answer_blocks_become_text_and_calls() {
    let r = response_from_blocks(vec![
        ResponseBlock::Text { text: "first".to_string() },
        ResponseBlock::ToolUse { id: "a".to_string(), name: "f".to_string(), input: "{}".to_string() },
        ResponseBlock::Text { text: "last".to_string() },
        ResponseBlock::ToolUse { id: "b".to_string(), name: "g".to_string(), input: "{\"k\":2}".to_string() },
    ]);
    assert_eq!(r.content.as_deref(), Some("last"));
    assert_eq!(r.tool_calls.len(), 2);
    assert_eq!(r.tool_calls[0].id, "a");
    assert_eq!(r.tool_calls[0].type_, "function");
    assert_eq!(r.tool_calls[1].function.name, "g");
    assert_eq!(r.tool_calls[1].function.arguments, "{\"k\":2}");
    let r = response_from_blocks(vec![]);
    assert_eq!(r.content, None);
    assert!(r.tool_calls.is_empty());
}

#[test]
fn tools_are_told_with_their_schema() {
    let defs = vec![ToolDef {
        type_: "function".to_string(),
        function: FunctionDef {
            name: "f".to_string(),
            description: "does f".to_string(),
            parameters: "{\"type\":\"object\"}".to_string(),
        },
    }];
    let told = convert_tools(&defs);
    assert_eq!(told.len(), 1);
    assert_eq!(told[0].name, "f");
    assert_eq!(told[0].description, "does f");
    assert_eq!(told[0].input_schema, "{\"type\":\"object\"}");
}
