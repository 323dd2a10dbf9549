use ikoro::api::{
    authorized, bearer_token, bind_host, check_binding, default_channel, default_user,
    is_localhost, is_open_path, respond, AgentResponse,
};
use ikoro::config::MemoryConfig;
use ikoro::mcp::{
    continue_call, handle_request, RpcBody, RpcRequest, RpcStep, INVALID_PARAMS, INVALID_REQUEST,
    METHOD_NOT_FOUND, TOOL_FAILURE,
};
use ikoro::memory::{FileReply, MemoryManager};
use ikoro::tools::{ToolContext, ToolKind, ToolRegistry, ToolReply};

/// Whether `host` is written as an address of a loopback interface.
fn loopback(host: &str) -> bool {
    let octets: Vec<&str> = host.split('.').collect();
    let v4 = octets.len() == 4
        && octets[0] == "127"
        && octets.iter().all(|o| !o.is_empty() && o.len() <= 3 && o.parse::<u8>().is_ok());
    v4 || host == "::1"
}

fn local(bind: &str) -> bool {
    is_localhost(bind, loopback(&bind_host(bind)))
}

#[test]
fn test_is_localhost_loopback() {
    assert!(local("127.0.0.1:3000"));
    assert!(local("127.0.1.1:8080"));
    assert!(local("127.255.255.255:3000"));
    assert!(local("localhost:3000"));
    assert!(local("[::1]:3000"));
}

#[test]
fn test_is_localhost_rejects_non_local() {
    assert!(!local("0.0.0.0:3000"));
    assert!(!local("192.168.1.1:3000"));
    assert!(!local("example.com:3000"));
    assert!(!local("localhost.evil.com:3000"));
    assert!(!local("127.evil.com:3000"));
    assert!(!local("127.0.0.evil:3000"));
    assert!(!local("127.0.0.1.1:3000"));
}

#[test]
fn test_is_localhost_malformed_no_panic() {
    assert!(!local("]"));
    assert!(!local("[]"));
    assert!(!local("["));
    assert!(!local(""));
    assert!(!local(":"));
    assert!(!local("[]:3000"));
}

#[test]
fn host_is_what_the_address_names() {
    assert_eq!(bind_host("127.0.0.1:3000"), "127.0.0.1");
    assert_eq!(bind_host("[::1]:3000"), "::1");
    assert_eq!(bind_host("[::1]"), "::1");
    assert_eq!(bind_host("::1"), ":");
    assert_eq!(bind_host("localhost"), "localhost");
    assert_eq!(bind_host("[abc"), "[abc");
    assert_eq!(bind_host("[a:b"), "[a");
    assert_eq!(bind_host("[]:3000"), "");
    assert_eq!(bind_host(""), "");
    assert_eq!(bind_host(":"), "");
    assert_eq!(bind_host("a:b:c"), "a:b");
}

#[test]
fn listener_for_other_machines_needs_a_token() {
    assert!(check_binding("API", "api", "127.0.0.1:3000", false, true).is_ok());
    assert!(check_binding("API", "api", "localhost:3000", false, false).is_ok());
    assert!(check_binding("API", "api", "0.0.0.0:3000", true, false).is_ok());
    assert_eq!(
        check_binding("API", "api", "0.0.0.0:3000", false, false).unwrap_err(),
        "API authentication required for non-localhost binding '0.0.0.0:3000'. Set [api] api_key."
    );
    assert_eq!(
        check_binding("MCP", "mcp", "10.0.0.5:9", false, false).unwrap_err(),
        "MCP authentication required for non-localhost binding '10.0.0.5:9'. Set [mcp] api_key."
    );
}

#[test]
fn bearer_token_must_match() {
    assert_eq!(bearer_token("Bearer abc").as_deref(), Some("abc"));
    assert_eq!(bearer_token("Bearer ").as_deref(), Some(""));
    assert_eq!(bearer_token("bearer abc"), None);
    assert_eq!(bearer_token("Bearer"), None);
    assert_eq!(bearer_token(""), None);
    let expected = Some("s3cret".to_string());
    assert!(authorized(&expected, &Some("Bearer s3cret".to_string())));
    assert!(!authorized(&expected, &Some("Bearer s3cret ".to_string())));
    assert!(!authorized(&expected, &Some("s3cret".to_string())));
    assert!(!authorized(&expected, &None));
    assert!(authorized(&None, &None));
    assert!(authorized(&None, &Some("anything".to_string())));
    assert!(is_open_path("/"));
    assert!(is_open_path("/health"));
    assert!(!is_open_path("/message"));
}

#[test]
fn message_endpoint_answers_failures_in_words() {
    let (code, r) = respond(Ok(AgentResponse { text: Some("4".to_string()), actions: vec![] }));
    assert_eq!((code, r.text.as_str()), (200, "4"));
    let (code, r) = respond(Ok(AgentResponse { text: None, actions: vec![] }));
    assert_eq!((code, r.text.as_str()), (200, "(no response)"));
    let (code, r) = respond(Err("disk full".to_string()));
    assert_eq!((code, r.text.as_str()), (500, "Error: disk full"));
    assert!(r.actions.is_empty());
    assert_eq!(default_channel(), "cli");
    assert_eq!(default_user(), "masaki");
}

fn registry() -> ToolRegistry {
    let config = MemoryConfig { base_dir: "/mem".to_string(), core_memory_max_tokens: 2000 };
    let ctx = ToolContext { memory: MemoryManager::new(&config), base_dir: "/mem".to_string() };
    let mut reg = ToolRegistry::new(ctx);
    reg.add(ToolKind::SearchLogs);
    reg.add(ToolKind::ReadCoreMemory);
    reg.add(ToolKind::UpdateCoreMemory);
    reg.add(ToolKind::ReadDailyLog);
    reg
}

fn request(method: &str, name: Option<&str>, arguments: Option<&str>) -> RpcRequest {
    RpcRequest {
        jsonrpc: "2.0".to_string(),
        id: Some("7".to_string()),
        method: method.to_string(),
        tool_name: name.map(|s| s.to_string()),
        arguments: arguments.map(|s| s.to_string()),
    }
}

fn handle(req: &RpcRequest, may_pass: bool) -> RpcStep {
    handle_request(&registry(), "1koro", "0.1.0", req, may_pass, "2026-02-17")
}

fn refusal(step: RpcStep) -> (i64, String) {
    match step {
        RpcStep::Respond { id, body: RpcBody::Error { code, message } } => {
            assert_eq!(id, "7");
            (code, message)
        }
        other => panic!("expected an error, got {:?}", other),
    }
}

#[test]
fn notification_gets_no_answer() {
    let mut req = request("tools/list", None, None);
    req.id = None;
    assert!(matches!(handle(&req, true), RpcStep::Silent));
}

#[test]
fn wrong_version_is_an_invalid_request() {
    let mut req = request("initialize", None, None);
    req.jsonrpc = "1.0".to_string();
    assert_eq!(refusal(handle(&req, true)), (-32600, "Invalid JSON-RPC version".to_string()));
    assert_eq!(INVALID_REQUEST, -32600);
}

#[test]
fn initialize_tells_protocol_and_server() {
    for may_pass in [true, false] {
        match handle(&request("initialize", None, None), may_pass) {
            RpcStep::Respond {
                id,
                body: RpcBody::Initialize { protocol_version, server_name, server_version },
            } => {
                assert_eq!(id, "7");
                assert_eq!(protocol_version, "2024-11-05");
                assert_eq!(server_name, "1koro");
                assert_eq!(server_version, "0.1.0");
            }
            other => panic!("expected the server's metadata, got {:?}", other),
        }
    }
}

#[test]
fn everything_but_initialize_needs_the_token() {
    assert_eq!(
        refusal(handle(&request("tools/list", None, None), false)),
        (-32000, "Unauthorized".to_string())
    );
    assert_eq!(
        refusal(handle(&request("tools/call", Some("search_logs"), Some("{}")), false)),
        (TOOL_FAILURE, "Unauthorized".to_string())
    );
}

#[test]
fn tools_list_is_the_live_registry() {
    match handle(&request("tools/list", None, None), true) {
        RpcStep::Respond { body: RpcBody::Tools(defs), .. } => {
            let names: Vec<&str> = defs.iter().map(|d| d.name.as_str()).collect();
            assert_eq!(
                names,
                vec!["search_logs", "read_core_memory", "update_core_memory", "read_daily_log"]
            );
            assert_eq!(defs[3].description, "Read a daily log by date (YYYY-MM-DD)");
        }
        other => panic!("expected the tools, got {:?}", other),
    }
}

#[test]
fn unknown_method_is_not_found() {
    assert_eq!(
        refusal(handle(&request("tools/delete", None, None), true)),
        (-32601, "Method not found: tools/delete".to_string())
    );
    assert_eq!(METHOD_NOT_FOUND, -32601);
}

#[test]
fn bad_calls_are_invalid_params() {
    assert_eq!(
        refusal(handle(&request("tools/call", None, Some("{}")), true)),
        (-32602, "Missing tool name".to_string())
    );
    assert_eq!(
        refusal(handle(&request("tools/call", Some("shell"), Some("{}")), true)),
        (INVALID_PARAMS, "Unknown tool: shell".to_string())
    );
    assert_eq!(
        refusal(handle(&request("tools/call", Some("search_logs"), None), true)),
        (-32602, "Missing required 'query' parameter".to_string())
    );
    let (code, message) =
        refusal(handle(&request("tools/call", Some("search_logs"), Some("{")), true));
    assert_eq!(code, -32602);
    assert!(message.starts_with("Invalid tool arguments for search_logs: "));
}

#[test]
fn tool_failures_have_their_own_code() {
    assert_eq!(
        refusal(handle(
            &request("tools/call", Some("read_core_memory"), Some("{\"file\":\"x.md\"}")),
            true
        )),
        (-32000, "Invalid core memory file: x.md".to_string())
    );
    let step =
        handle(&request("tools/call", Some("read_core_memory"), Some("{\"file\":\"user.md\"}")), true);
    let (id, followup) = match step {
        RpcStep::Run { id, followup, .. } => (id, followup),
        other => panic!("expected outside work, got {:?}", other),
    };
    let step = continue_call(id, followup, ToolReply::File(FileReply::Failed("denied".to_string())));
    assert_eq!(refusal(step), (-32000, "Failed to read core memory: /mem/core/user.md".to_string()));
}

#[test]
fn tool_call_answers_with_the_tools_text() {
    match handle(&request("tools/call", Some("search_logs"), Some("{\"query\":\"\"}")), true) {
        RpcStep::Respond { id, body: RpcBody::Text(text) } => {
            assert_eq!(id, "7");
            assert_eq!(text, "Error: 'query' must not be empty");
        }
        other => panic!("expected a text, got {:?}", other),
    }
    let step =
        handle(&request("tools/call", Some("read_core_memory"), Some("{\"file\":\"user.md\"}")), true);
    let (id, followup) = match step {
        RpcStep::Run { id, followup, .. } => (id, followup),
        other => panic!("expected outside work, got {:?}", other),
    };
    match continue_call(id, followup, ToolReply::File(FileReply::Text("likes tea".to_string()))) {
        RpcStep::Respond { id, body: RpcBody::Text(text) } => {
            assert_eq!(id, "7");
            assert_eq!(text, "likes tea");
        }
        other => panic!("expected a text, got {:?}", other),
    }
}
