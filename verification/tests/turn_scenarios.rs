use ikoro::agent::{Agent, Phase, ToolLoop, MAX_TOOL_ITERATIONS, TOOL_LIMIT_REPLY};
use ikoro::config::MemoryConfig;
use ikoro::context::MemorySnapshot;
use ikoro::llm::{FunctionCall, LlmResponse, Message, ToolCall};
use ikoro::memory::{FileReply, FileRequest, MemoryManager};
use ikoro::session::{Session, SessionStore};
use ikoro::tools::{
    ToolContext, ToolError, ToolKind, ToolRegistry, ToolReply, ToolRequest, ToolResult, ToolStep,
};
use ikoro::turn::{Turn, TurnPhase};

const STATE: &str = "# State\n\nWorking on the quarterly report.\n";

fn context() -> ToolContext {
    let config = MemoryConfig { base_dir: "/mem".to_string(), core_memory_max_tokens: 2000 };
    ToolContext { memory: MemoryManager::new(&config), base_dir: "/mem".to_string() }
}

fn registry() -> ToolRegistry {
    let mut reg = ToolRegistry::new(context());
    reg.add(ToolKind::SearchLogs);
    reg.add(ToolKind::ReadCoreMemory);
    reg.add(ToolKind::UpdateCoreMemory);
    reg
}

fn snapshot() -> MemorySnapshot {
    MemorySnapshot {
        identity: "I am the assistant.".to_string(),
        user: "The user.".to_string(),
        state: STATE.to_string(),
        monthly: None,
        weekly: None,
    }
}

fn call(id: &str, name: &str, arguments: &str) -> ToolCall {
    ToolCall {
        id: id.to_string(),
        type_: "function".to_string(),
        function: FunctionCall { name: name.to_string(), arguments: arguments.to_string() },
    }
}

fn text(reply: &str) -> LlmResponse {
    LlmResponse { content: Some(reply.to_string()), tool_calls: vec![] }
}

fn asks(calls: Vec<ToolCall>) -> LlmResponse {
    LlmResponse { content: None, tool_calls: calls }
}

/// Serves the file requests of a tool from a store that holds the state
/// file and nothing else.
fn perform(request: &ToolRequest) -> ToolReply {
    match request {
        ToolRequest::File(FileRequest::Read { path }) => {
            if path == "/mem/core/state.md" {
                ToolReply::File(FileReply::Text(STATE.to_string()))
            } else {
                ToolReply::File(FileReply::Missing)
            }
        }
        ToolRequest::File(_) => ToolReply::File(FileReply::Done),
        ToolRequest::DailyLogs { .. } => ToolReply::DailyLogs(Ok(vec![])),
        _ => ToolReply::File(FileReply::Failed("not available".to_string())),
    }
}

fn run_tool(reg: &ToolRegistry, tc: &ToolCall) -> Result<ToolResult, ToolError> {
    let mut step = reg.execute(&tc.function.name, &tc.function.arguments, "2026-02-17")?;
    loop {
        match step {
            ToolStep::Done(result) => return Ok(result),
            ToolStep::Ask { request, followup } => {
                let reply = perform(&request);
                step = followup.resume(reply)?;
            }
        }
    }
}

/// Plays the part of the process around a turn: saves, logs, reads the
/// memory, asks the scripted model, runs the tools.
fn serve(mut turn: Turn, reg: &ToolRegistry, script: &mut Vec<LlmResponse>) -> (Turn, usize) {
    let mut saves = 0;
    script.reverse();
    loop {
        turn = match turn.phase() {
            TurnPhase::Summarizing => turn.on_summary(Ok(Some("Earlier talk.".to_string()))),
            TurnPhase::SavingSummary | TurnPhase::SavingUser | TurnPhase::SavingReply => {
                saves += 1;
                turn.on_saved(Ok(()), 2)
            }
            TurnPhase::LoggingUser | TurnPhase::LoggingReply => turn.on_logged(),
            TurnPhase::ReadingMemory => turn.on_memory(&snapshot(), &vec![], 3),
            TurnPhase::Exchanging => {
                let pending = turn.current_call().map(|tc| run_tool(reg, tc));
                match pending {
                    Some(result) => turn.on_tool_result(result, 4),
                    None => {
                        let response = script.pop().expect("the model was asked too often");
                        turn.on_response(Ok(response), 4)
                    }
                }
            }
            TurnPhase::Done => return (turn, saves),
        };
    }
}

fn agent() -> Agent {
    Agent::new(SessionStore::new("/mem".to_string(), vec![]), registry(), vec![])
}

#[test]
fn plain_answer_adds_user_and_assistant_message() {
    let mut agent = agent();
    let turn = agent.handle_message("What's 2+2?", "cli", "alice", 1).expect("session is free");
    assert_eq!(turn.session().key, "cli:alice");
    let reg = registry();
    let (turn, saves) = serve(turn, &reg, &mut vec![text("4")]);
    assert_eq!(saves, 2);
    let response = agent.finish_turn(turn).expect("the turn succeeds");
    assert_eq!(response.text.as_deref(), Some("4"));

    let session = agent.sessions.get_or_create("cli:alice", 9).expect("session is free again");
    assert_eq!(session.messages.len(), 2);
    assert_eq!(session.messages[0].role, "user");
    assert_eq!(session.messages[0].content.as_deref(), Some("What's 2+2?"));
    assert_eq!(session.messages[1].role, "assistant");
    assert_eq!(session.messages[1].content.as_deref(), Some("4"));
    assert!(session.messages[1].tool_calls.is_none());
}

#[test]
fn tool_call_is_answered_with_the_file_and_recorded_in_order() {
    let reg = registry();
    let session = Session::new("cli:alice", 1);
    let turn = Turn::begin(session, "alice", "What am I doing?", 1, 20, 10);
    let mut script = vec![
        asks(vec![call("t1", "read_core_memory", "{\"file\":\"state.md\"}")]),
        text("Done."),
    ];
    let (turn, _) = serve(turn, &reg, &mut script);
    let (session, outcome) = turn.finish();
    assert_eq!(outcome.expect("the turn succeeds").text.as_deref(), Some("Done."));

    assert_eq!(session.messages.len(), 4);
    assert_eq!(session.messages[0].role, "user");
    let asked = &session.messages[1];
    assert_eq!(asked.role, "assistant");
    assert_eq!(asked.content, None);
    let calls = asked.tool_calls.as_ref().expect("the calls are recorded");
    assert_eq!(calls.len(), 1);
    assert_eq!(calls[0].id, "t1");
    assert_eq!(calls[0].function.name, "read_core_memory");
    let result = &session.messages[2];
    assert_eq!(result.role, "tool");
    assert_eq!(result.tool_call_id.as_deref(), Some("t1"));
    assert_eq!(result.content.as_deref(), Some(STATE));
    let last = &session.messages[3];
    assert_eq!(last.role, "assistant");
    assert_eq!(last.content.as_deref(), Some("Done."));
}

#[test]
fn endless_tool_calls_stop_at_the_limit() {
    let reg = registry();
    let mut l = ToolLoop::new(vec![Message::system("prompt"), Message::user("go")], 10);
    let mut asked = 0;
    while l.phase() == Phase::Requesting {
        asked += 1;
        let id = format!("t{}", asked);
        l = l.on_response(asks(vec![call(&id, "read_core_memory", "{\"file\":\"state.md\"}")]));
        while l.phase() == Phase::RunningTools {
            let result = run_tool(&reg, l.current_call().expect("a call is pending"));
            l = l.on_tool_result(result);
        }
    }
    assert_eq!(asked, 10);
    assert_eq!(asked, MAX_TOOL_ITERATIONS);
    assert_eq!(l.phase(), Phase::LimitReached);
    assert_eq!(l.request().len(), 2 + 2 * 10);
    let (reply, new_messages) = l.finish();
    assert_eq!(reply.as_deref(), Some("Tool use limit reached."));
    assert_eq!(reply.as_deref(), Some(TOOL_LIMIT_REPLY));
    assert_eq!(new_messages.len(), 2 * 10);
    for (i, pair) in new_messages.chunks(2).enumerate() {
        let id = format!("t{}", i + 1);
        assert_eq!(pair[0].role, "assistant");
        assert_eq!(pair[0].tool_calls.as_ref().unwrap()[0].id, id);
        assert_eq!(pair[1].role, "tool");
        assert_eq!(pair[1].tool_call_id.as_deref(), Some(id.as_str()));
        assert_eq!(pair[1].content.as_deref(), Some(STATE));
    }
}

#[test]
fn further_answers_after_the_limit_change_nothing() {
    let mut l = ToolLoop::new(vec![], 1);
    l = l.on_response(asks(vec![call("a", "x", "{}")]));
    l = l.on_tool_text("one");
    assert_eq!(l.phase(), Phase::LimitReached);
    l = l.on_response(text("late"));
    l = l.on_tool_text("late");
    assert_eq!(l.phase(), Phase::LimitReached);
    assert_eq!(l.new_messages().len(), 2);
    assert_eq!(l.reply().as_deref(), Some(TOOL_LIMIT_REPLY));
}

#[test]
fn no_iterations_allowed_means_limit_at_once() {
    let l = ToolLoop::new(vec![Message::user("hi")], 0);
    assert_eq!(l.phase(), Phase::LimitReached);
    assert_eq!(l.reply().as_deref(), Some(TOOL_LIMIT_REPLY));
    assert!(l.new_messages().is_empty());
}

#[test]
fn several_calls_in_one_answer_run_in_order() {
    let mut l = ToolLoop::new(vec![Message::user("hi")], 10);
    l = l.on_response(LlmResponse {
        content: Some("Let me look.".to_string()),
        tool_calls: vec![call("a", "first", "{}"), call("b", "second", "{}")],
    });
    assert_eq!(l.current_call().unwrap().id, "a");
    l = l.on_tool_text("one");
    assert_eq!(l.phase(), Phase::RunningTools);
    assert_eq!(l.current_call().unwrap().id, "b");
    l = l.on_tool_result(Err(ToolError::UnknownTool("second".to_string())));
    assert_eq!(l.phase(), Phase::Requesting);
    assert!(l.current_call().is_none());
    let new = l.new_messages();
    assert_eq!(new.len(), 3);
    assert_eq!(new[0].content.as_deref(), Some("Let me look."));
    assert_eq!(new[1].tool_call_id.as_deref(), Some("a"));
    assert_eq!(new[1].content.as_deref(), Some("one"));
    assert_eq!(new[2].tool_call_id.as_deref(), Some("b"));
    assert_eq!(new[2].content.as_deref(), Some("Tool error: Unknown tool: second"));
    assert_eq!(l.request().len(), 4);
}

#[test]
fn answer_without_text_and_without_calls_ends_with_no_reply() {
    let mut l = ToolLoop::new(vec![Message::user("hi")], 10);
    l = l.on_response(LlmResponse { content: None, tool_calls: vec![] });
    assert_eq!(l.phase(), Phase::Replied);
    assert_eq!(l.reply(), &None);
    assert!(l.new_messages().is_empty());
}

#[test]
fn unreachable_model_fails_the_turn_but_keeps_the_user_message() {
    let session = Session::new("cli:alice", 1);
    let mut turn = Turn::begin(session, "alice", "hello", 1, 20, 10);
    assert_eq!(turn.phase(), TurnPhase::SavingUser);
    turn = turn.on_saved(Ok(()), 2).on_logged().on_memory(&snapshot(), &vec![], 3);
    assert_eq!(turn.phase(), TurnPhase::Exchanging);
    assert_eq!(turn.request().map(|m| m.len()), Some(2));
    turn = turn.on_response(Err("LLM API error (400 Bad Request): no".to_string()), 4);
    assert_eq!(turn.phase(), TurnPhase::Done);
    let (session, outcome) = turn.finish();
    assert_eq!(outcome.unwrap_err(), "LLM API error (400 Bad Request): no");
    assert_eq!(session.messages.len(), 1);
    assert_eq!(session.messages[0].content.as_deref(), Some("hello"));
}

#[test]
fn failed_save_is_reported_and_ends_the_turn() {
    let session = Session::new("cli:alice", 1);
    let turn = Turn::begin(session, "alice", "hello", 1, 20, 10);
    let turn = turn.on_saved(Err("disk full".to_string()), 2);
    assert_eq!(turn.phase(), TurnPhase::Done);
    assert!(turn.request().is_none());
    let (session, outcome) = turn.finish();
    assert_eq!(outcome.unwrap_err(), "disk full");
    assert_eq!(session.messages.len(), 1);
}

#[test]
fn log_lines_name_the_conversation_and_the_speaker() {
    let session = Session::new("cli:alice", 1);
    let turn = Turn::begin(session, "alice", "hello", 1, 20, 10).on_saved(Ok(()), 2);
    assert_eq!(turn.phase(), TurnPhase::LoggingUser);
    assert_eq!(turn.log_line().as_deref(), Some("[cli:alice] alice: hello"));
    let turn = turn.on_logged().on_memory(&snapshot(), &vec![], 3).on_response(Ok(text("hi")), 4);
    assert_eq!(turn.phase(), TurnPhase::SavingReply);
    assert_eq!(turn.log_line(), None);
    let turn = turn.on_saved(Ok(()), 5);
    assert_eq!(turn.phase(), TurnPhase::LoggingReply);
    assert_eq!(turn.log_line().as_deref(), Some("[cli:alice] 1koro: hi"));
    assert_eq!(turn.session().updated_at, 4);
}

#[test]
fn long_conversation_is_compressed_before_the_user_turn() {
    let mut session = Session::new("cli:alice", 0);
    for i in 0..21 {
        session.messages.push(Message::user(&format!("m{}", i)));
    }
    let turn = Turn::begin(session, "alice", "next", 1, 20, 10);
    assert_eq!(turn.phase(), TurnPhase::Summarizing);
    let request = turn.summary_request().expect("a summary is asked for");
    assert_eq!(request.len(), 2);
    assert_eq!(request[0].role, "system");
    assert_eq!(
        request[0].content.as_deref(),
        Some("Summarize this conversation concisely. Key facts, decisions, context. Under 300 words.")
    );
    assert_eq!(
        request[1].content.as_deref(),
        Some("user: m0\nuser: m1\nuser: m2\nuser: m3\nuser: m4\nuser: m5\nuser: m6\nuser: m7\nuser: m8\nuser: m9\n")
    );
    let turn = turn.on_summary(Ok(Some("They counted.".to_string())));
    assert_eq!(turn.phase(), TurnPhase::SavingSummary);
    assert_eq!(turn.session().messages.len(), 11);
    assert_eq!(turn.session().summary.as_deref(), Some("They counted."));
    let turn = turn.on_saved(Ok(()), 2);
    assert_eq!(turn.phase(), TurnPhase::SavingUser);
    assert_eq!(turn.session().messages.len(), 12);
    assert_eq!(turn.session().messages[11].content.as_deref(), Some("next"));
    assert_eq!(turn.session().messages[0].content.as_deref(), Some("m10"));
}

#[test]
fn failed_summary_leaves_the_conversation_as_it_is() {
    let mut session = Session::new("cli:alice", 0);
    for i in 0..20 {
        session.messages.push(Message::user(&format!("m{}", i)));
    }
    let turn = Turn::begin(session, "alice", "next", 1, 20, 10);
    let turn = turn.on_summary(Err("timeout".to_string()));
    assert_eq!(turn.phase(), TurnPhase::SavingSummary);
    assert_eq!(turn.session().messages.len(), 20);
    assert_eq!(turn.session().summary, None);
}

#[test]
fn busy_conversation_is_not_handed_out_twice() {
    let mut agent = agent();
    let first = agent.handle_message("A", "cli", "alice", 1).expect("session is free");
    assert!(agent.handle_message("B", "cli", "alice", 2).is_none());
    let other = agent.handle_message("C", "cli", "bob", 3).expect("another key is free");
    assert_eq!(other.session().key, "cli:bob");
    assert_eq!(other.session().messages.len(), 1);
    let reg = registry();
    let (first, _) = serve(first, &reg, &mut vec![text("a")]);
    agent.finish_turn(first).unwrap();
    let second = agent.handle_message("B", "cli", "alice", 4).expect("session is free again");
    let (second, _) = serve(second, &reg, &mut vec![text("b")]);
    agent.finish_turn(second).unwrap();
    let session = agent.sessions.get_or_create("cli:alice", 9).unwrap();
    let texts: Vec<&str> = session.messages.iter().map(|m| m.content.as_deref().unwrap()).collect();
    assert_eq!(texts, vec!["A", "a", "B", "b"]);
}

#[test]
fn no_schemas_are_sent_without_tools() {
    let empty = Agent::new(
        SessionStore::new("/mem".to_string(), vec![]),
        ToolRegistry::new(context()),
        vec![],
    );
    assert!(empty.tool_schemas().is_none());
    let full = agent();
    let defs = full.tool_schemas().expect("tools are enabled");
    let names: Vec<&str> = defs.iter().map(|d| d.function.name.as_str()).collect();
    assert_eq!(names, vec!["read_core_memory", "search_logs", "update_core_memory"]);
    assert_eq!(defs[0].type_, "function");
}
