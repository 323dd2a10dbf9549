use ikoro::config::MemoryConfig;
use ikoro::memory::{DailyLog, FileReply, FileRequest, MemoryFault, MemoryManager};
use ikoro::tools::args::{is_json, ToolArgs};
use ikoro::tools::file::ReadFileTool;
use ikoro::tools::memory::{
    AppendLogTool, ReadCoreMemoryTool, ReadDailyLogTool, SearchLogsTool, UpdateCoreMemoryTool,
    WriteSummaryTool,
};
use ikoro::tools::shell::ShellTool;
use ikoro::tools::{
    is_within, Followup, ShellOutcome, ToolContext, ToolError, ToolKind, ToolRegistry, ToolReply,
    ToolRequest, ToolStep,
};

fn ctx() -> ToolContext {
    let config = MemoryConfig { base_dir: "/mem".to_string(), core_memory_max_tokens: 2000 };
    ToolContext { memory: MemoryManager::new(&config), base_dir: "/mem".to_string() }
}

fn full_registry() -> ToolRegistry {
    let mut reg = ToolRegistry::new(ctx());
    reg.add(ToolKind::Shell(30));
    reg.add(ToolKind::SearchLogs);
    reg.add(ToolKind::ReadCoreMemory);
    reg.add(ToolKind::UpdateCoreMemory);
    reg.add(ToolKind::AppendLog);
    reg.add(ToolKind::ReadDailyLog);
    reg.add(ToolKind::WriteSummary);
    reg.add(ToolKind::ReadFile);
    reg
}

fn done(step: Result<ToolStep, ToolError>) -> String {
    match step {
        Ok(ToolStep::Done(r)) => r.for_llm,
        other => panic!("expected a finished call, got {:?}", other),
    }
}

fn ask(step: Result<ToolStep, ToolError>) -> (ToolRequest, Followup) {
    match step {
        Ok(ToolStep::Ask { request, followup }) => (request, followup),
        other => panic!("expected a request, got {:?}", other),
    }
}

fn error(step: Result<ToolStep, ToolError>) -> ToolError {
    match step {
        Err(e) => e,
        other => panic!("expected an error, got {:?}", other),
    }
}

fn exec(name: &str, args: &str) -> Result<ToolStep, ToolError> {
    full_registry().execute(name, args, "2026-02-17")
}

#[test]
fn arguments_are_read_from_json_text() {
    let args = ToolArgs::parse("{\"query\":\"tea\",\"limit\":5,\"deep\":{\"a\":1},\"neg\":-3}")
        .expect("valid JSON");
    assert_eq!(args.get_str("query").map(|s| s.as_str()), Some("tea"));
    assert_eq!(args.get_u64("limit"), Some(5));
    assert_eq!(args.get_str("limit"), None);
    assert_eq!(args.get_u64("query"), None);
    assert_eq!(args.get_str("deep"), None);
    assert_eq!(args.get_u64("neg"), None);
    assert_eq!(args.get_str("missing"), None);
}

#[test]
fn values_that_are_no_objects_have_no_members() {
    for text in ["[1,2]", "null", "\"query\"", "7"] {
        let args = ToolArgs::parse(text).expect("valid JSON");
        assert_eq!(args.get_str("query"), None);
        assert!(args.members.is_empty());
    }
}

#[test]
fn text_that_is_no_json_is_refused_with_the_parsers_message() {
    let e = ToolArgs::parse("{not json").unwrap_err();
    assert!(!e.is_empty());
    assert!(is_json("{}"));
    assert!(is_json(" {\"a\": [1, 2]} "));
    assert!(!is_json("{"));
    assert!(!is_json(""));
}

#[test]
fn malformed_arguments_fail_with_invalid_arguments() {
    match exec("search_logs", "{oops") {
        Err(ToolError::InvalidArguments { tool, reason }) => {
            assert_eq!(tool, "search_logs");
            assert!(!reason.is_empty());
        }
        other => panic!("expected InvalidArguments, got {:?}", other),
    }
    let e = error(exec("search_logs", "{oops"));
    assert!(e.message().starts_with("Invalid tool arguments for search_logs: "));
}

#[test]
fn unknown_tool_is_checked_before_the_arguments() {
    match exec("nope", "{oops") {
        Err(ToolError::UnknownTool(name)) => assert_eq!(name, "nope"),
        other => panic!("expected UnknownTool, got {:?}", other),
    }
}

#[test]
fn search_needs_a_query() {
    let e = error(exec("search_logs", "{}"));
    assert_eq!(e.message(), "Missing required 'query' parameter");
    assert_eq!(done(exec("search_logs", "{\"query\":\"\"}")), "Error: 'query' must not be empty");
    assert_eq!(error(exec("search_logs", "{\"query\":5}")).message(), "Missing required 'query' parameter");
}

#[test]
fn search_asks_for_the_logs_and_lists_the_hits() {
    let (request, followup) = ask(exec("search_logs", "{\"query\":\"TEA\"}"));
    match &request {
        ToolRequest::DailyLogs { dir } => assert_eq!(dir, "/mem/logs/daily"),
        other => panic!("unexpected request {:?}", other),
    }
    match &followup {
        Followup::Search { query, limit } => {
            assert_eq!(query, "TEA");
            assert_eq!(*limit, 100);
        }
        other => panic!("unexpected followup {:?}", other),
    }
    let logs = vec![
        DailyLog { date: "2026-02-16".to_string(), content: "# 2026-02-16\n\n- Bought tea\n- Ran\n".to_string() },
        DailyLog { date: "2026-02-17".to_string(), content: "- Steam\r\n- Drank Tea again".to_string() },
    ];
    let text = done(followup.resume(ToolReply::DailyLogs(Ok(logs))));
    assert_eq!(text, "[2026-02-16] - Bought tea\n[2026-02-17] - Steam\n[2026-02-17] - Drank Tea again");
}

#[test]
fn search_honours_the_limit_and_reports_nothing_found() {
    let (_, followup) = ask(exec("search_logs", "{\"query\":\"a\",\"limit\":1}"));
    let logs = vec![DailyLog { date: "d".to_string(), content: "a1\na2\na3".to_string() }];
    assert_eq!(done(followup.resume(ToolReply::DailyLogs(Ok(logs)))), "[d] a1");
    let (_, followup) = ask(exec("search_logs", "{\"query\":\"zzz\"}"));
    let logs = vec![DailyLog { date: "d".to_string(), content: "a1\na2".to_string() }];
    assert_eq!(done(followup.resume(ToolReply::DailyLogs(Ok(logs)))), "No results found.");
    let (_, followup) = ask(exec("search_logs", "{\"query\":\"zzz\"}"));
    let e = error(followup.resume(ToolReply::DailyLogs(Err("cannot list".to_string()))));
    assert_eq!(e.message(), "cannot list");
}

#[test]
fn read_core_memory_reads_the_validated_file() {
    let (request, followup) = ask(exec("read_core_memory", "{\"file\":\"user.md\"}"));
    match &request {
        ToolRequest::File(FileRequest::Read { path }) => assert_eq!(path, "/mem/core/user.md"),
        other => panic!("unexpected request {:?}", other),
    }
    let text = done(followup.resume(ToolReply::File(FileReply::Text("likes tea".to_string()))));
    assert_eq!(text, "likes tea");
    let (_, followup) = ask(exec("read_core_memory", "{\"file\":\"user.md\"}"));
    let e = error(followup.resume(ToolReply::File(FileReply::Missing)));
    assert_eq!(e.message(), "Failed to read core memory: /mem/core/user.md");
    let (_, followup) = ask(exec("read_core_memory", "{\"file\":\"user.md\"}"));
    let e = error(followup.resume(ToolReply::File(FileReply::Failed("denied".to_string()))));
    assert_eq!(e.message(), "Failed to read core memory: /mem/core/user.md");
}

#[test]
fn read_core_memory_refuses_other_files() {
    match exec("read_core_memory", "{\"file\":\"../etc/passwd\"}") {
        Err(ToolError::Memory(e)) => {
            assert_eq!(e.fault, MemoryFault::InvalidCoreFile);
            assert_eq!(e.subject, "../etc/passwd");
        }
        other => panic!("expected a refusal, got {:?}", other),
    }
    assert_eq!(
        error(exec("read_core_memory", "{\"file\":\"x\"}")).message(),
        "Invalid core memory file: x"
    );
    assert_eq!(error(exec("read_core_memory", "{}")).message(), "Missing required 'file' parameter");
}

#[test]
fn update_core_memory_writes_and_confirms() {
    let (request, followup) =
        ask(exec("update_core_memory", "{\"file\":\"state.md\",\"content\":\"busy\"}"));
    match &request {
        ToolRequest::File(FileRequest::Write { path, content, make_parent }) => {
            assert_eq!(path, "/mem/core/state.md");
            assert_eq!(content, "busy");
            assert!(!*make_parent);
        }
        other => panic!("unexpected request {:?}", other),
    }
    assert_eq!(done(followup.resume(ToolReply::File(FileReply::Done))), "Updated state.md");
    let (_, followup) =
        ask(exec("update_core_memory", "{\"file\":\"state.md\",\"content\":\"busy\"}"));
    let e = error(followup.resume(ToolReply::File(FileReply::Failed("disk full".to_string()))));
    assert_eq!(e.message(), "Failed to write core memory: /mem/core/state.md");
}

#[test]
fn update_core_memory_checks_its_arguments_in_order() {
    assert_eq!(
        error(exec("update_core_memory", "{\"content\":\"x\"}")).message(),
        "Missing required 'file' parameter"
    );
    assert_eq!(
        error(exec("update_core_memory", "{\"file\":\"state.md\"}")).message(),
        "Missing required 'content' parameter"
    );
    assert_eq!(
        done(exec("update_core_memory", "{\"file\":\"identity.md\",\"content\":\"\"}")),
        "Error: 'content' must not be empty"
    );
    assert_eq!(
        error(exec("update_core_memory", "{\"file\":\"identity.md\",\"content\":\"x\"}")).message(),
        "Cannot write to core memory file: identity.md"
    );
}

#[test]
fn read_daily_log_reports_a_missing_day() {
    let (request, followup) = ask(exec("read_daily_log", "{\"date\":\"2026-02-17\"}"));
    match &request {
        ToolRequest::File(FileRequest::Read { path }) => {
            assert_eq!(path, "/mem/logs/daily/2026-02-17.md")
        }
        other => panic!("unexpected request {:?}", other),
    }
    assert_eq!(done(followup.resume(ToolReply::File(FileReply::Missing))), "No log for 2026-02-17");
    let (_, followup) = ask(exec("read_daily_log", "{\"date\":\"2026-02-17\"}"));
    assert_eq!(done(followup.resume(ToolReply::File(FileReply::Text("- x".to_string())))), "- x");
    let (_, followup) = ask(exec("read_daily_log", "{\"date\":\"2026-02-17\"}"));
    let e = error(followup.resume(ToolReply::File(FileReply::Failed("denied".to_string()))));
    assert_eq!(e.message(), "denied");
    assert_eq!(
        error(exec("read_daily_log", "{\"date\":\"2026-13-01\"}")).message(),
        "Invalid date value: 2026-13-01"
    );
    assert_eq!(
        error(exec("read_daily_log", "{\"date\":\"../../x\"}")).message(),
        "Invalid date format (expected YYYY-MM-DD): ../../x"
    );
}

#[test]
fn write_summary_chooses_the_series_by_period() {
    let (request, followup) =
        ask(exec("write_summary", "{\"period\":\"weekly\",\"id\":\"2026-W08\",\"content\":\"w\"}"));
    match &request {
        ToolRequest::File(FileRequest::Write { path, content, make_parent }) => {
            assert_eq!(path, "/mem/logs/weekly/2026-W08.md");
            assert_eq!(content, "w");
            assert!(*make_parent);
        }
        other => panic!("unexpected request {:?}", other),
    }
    assert_eq!(
        done(followup.resume(ToolReply::File(FileReply::Done))),
        "Written weekly summary: 2026-W08"
    );
    let (request, _) =
        ask(exec("write_summary", "{\"period\":\"monthly\",\"id\":\"2026-02\",\"content\":\"m\"}"));
    match &request {
        ToolRequest::File(FileRequest::Write { path, .. }) => {
            assert_eq!(path, "/mem/logs/monthly/2026-02.md")
        }
        other => panic!("unexpected request {:?}", other),
    }
}

#[test]
fn write_summary_refuses_what_it_cannot_file() {
    assert_eq!(
        done(exec("write_summary", "{\"period\":\"daily\",\"id\":\"x\",\"content\":\"c\"}")),
        "Unknown period: daily"
    );
    assert_eq!(
        done(exec("write_summary", "{\"period\":\"weekly\",\"id\":\"\",\"content\":\"c\"}")),
        "Error: 'id' and 'content' must not be empty"
    );
    assert_eq!(
        done(exec("write_summary", "{\"period\":\"weekly\",\"id\":\"2026-W08\",\"content\":\"\"}")),
        "Error: 'id' and 'content' must not be empty"
    );
    assert_eq!(
        error(exec("write_summary", "{\"period\":\"weekly\",\"id\":\"2026-02\",\"content\":\"c\"}"))
            .message(),
        "Invalid week id (expected YYYY-Wnn): 2026-02"
    );
    assert_eq!(
        error(exec("write_summary", "{\"period\":\"monthly\",\"id\":\"2026-13\",\"content\":\"c\"}"))
            .message(),
        "Invalid month number: 2026-13"
    );
    assert_eq!(
        error(exec("write_summary", "{\"id\":\"2026-02\",\"content\":\"c\"}")).message(),
        "Missing required 'period' parameter"
    );
}

#[test]
fn append_note_files_under_the_day() {
    let (request, followup) = ask(exec("append_note", "{\"text\":\"call mum\"}"));
    match &request {
        ToolRequest::File(FileRequest::Append { path, header, line }) => {
            assert_eq!(path, "/mem/logs/daily/2026-02-17.md");
            assert_eq!(header, "# 2026-02-17\n\n");
            assert_eq!(line, "- call mum\n");
        }
        other => panic!("unexpected request {:?}", other),
    }
    assert_eq!(done(followup.resume(ToolReply::File(FileReply::Done))), "Note appended.");
    assert_eq!(done(exec("append_note", "{\"text\":\"\"}")), "Error: 'text' must not be empty");
    let (_, followup) = ask(exec("append_note", "{\"text\":\"x\"}"));
    let e = error(followup.resume(ToolReply::File(FileReply::Failed("Failed to open log: p".to_string()))));
    assert_eq!(e.message(), "Failed to open log: p");
}

#[test]
fn read_file_stays_within_the_memory_directory() {
    let (request, followup) = ask(exec("read_file", "{\"path\":\"skills/a/SKILL.md\"}"));
    match &request {
        ToolRequest::Resolve { path, base } => {
            assert_eq!(path, "/mem/skills/a/SKILL.md");
            assert_eq!(base, "/mem");
        }
        other => panic!("unexpected request {:?}", other),
    }
    let resolved = ToolReply::Resolved {
        path: Ok("/data/mem/skills/a/SKILL.md".to_string()),
        base: Ok("/data/mem".to_string()),
    };
    let (request, followup) = ask(followup.resume(resolved));
    match &request {
        ToolRequest::File(FileRequest::Read { path }) => {
            assert_eq!(path, "/data/mem/skills/a/SKILL.md")
        }
        other => panic!("unexpected request {:?}", other),
    }
    assert_eq!(done(followup.resume(ToolReply::File(FileReply::Text("skill".to_string())))), "skill");
}

#[test]
fn read_file_refuses_paths_outside() {
    let (request, followup) = ask(exec("read_file", "{\"path\":\"/etc/passwd\"}"));
    match &request {
        ToolRequest::Resolve { path, .. } => assert_eq!(path, "/etc/passwd"),
        other => panic!("unexpected request {:?}", other),
    }
    let resolved =
        ToolReply::Resolved { path: Ok("/etc/passwd".to_string()), base: Ok("/mem".to_string()) };
    assert_eq!(
        done(followup.resume(resolved)),
        "Error: path outside memory directory: /etc/passwd"
    );
    let (_, followup) = ask(exec("read_file", "{\"path\":\"../mem2/x\"}"));
    let resolved =
        ToolReply::Resolved { path: Ok("/mem2/x".to_string()), base: Ok("/mem".to_string()) };
    assert_eq!(
        done(followup.resume(resolved)),
        "Error: path outside memory directory: /mem/../mem2/x"
    );
}

#[test]
fn read_file_reports_what_cannot_be_resolved_or_read() {
    let (_, followup) = ask(exec("read_file", "{\"path\":\"a\"}"));
    let reply = ToolReply::Resolved { path: Err("no such file".to_string()), base: Err("x".to_string()) };
    assert_eq!(done(followup.resume(reply)), "Error: cannot resolve path: no such file");
    let (_, followup) = ask(exec("read_file", "{\"path\":\"a\"}"));
    let reply = ToolReply::Resolved { path: Ok("/mem/a".to_string()), base: Err("gone".to_string()) };
    assert_eq!(done(followup.resume(reply)), "Error: cannot resolve base dir: gone");
    let (_, followup) = ask(exec("read_file", "{\"path\":\"a\"}"));
    let reply = ToolReply::Resolved { path: Ok("/mem/a".to_string()), base: Ok("/mem".to_string()) };
    let (_, followup) = ask(followup.resume(reply));
    assert_eq!(
        done(followup.resume(ToolReply::File(FileReply::Failed("is a directory".to_string())))),
        "Error reading /mem/a: is a directory"
    );
    assert_eq!(error(exec("read_file", "{}")).message(), "Missing required 'path' parameter");
}

#[test]
fn paths_within_a_directory() {
    assert!(is_within("/mem", "/mem"));
    assert!(is_within("/mem/a", "/mem"));
    assert!(is_within("/mem/a/b", "/mem/"));
    assert!(!is_within("/mem2", "/mem"));
    assert!(!is_within("/me", "/mem"));
    assert!(!is_within("/", "/mem"));
    assert!(is_within("/anything", "/"));
}

#[test]
fn shell_runs_in_the_memory_directory_with_its_timeout() {
    let (request, followup) = ask(exec("shell", "{\"command\":\"ls\"}"));
    match &request {
        ToolRequest::Shell { command, dir, timeout_secs } => {
            assert_eq!(command, "ls");
            assert_eq!(dir, "/mem");
            assert_eq!(*timeout_secs, 30);
        }
        other => panic!("unexpected request {:?}", other),
    }
    let exited = ShellOutcome::Exited {
        success: true,
        status: "exit status: 0".to_string(),
        stdout: "a\nb\n".to_string(),
        stderr: "warn".to_string(),
    };
    assert_eq!(done(followup.resume(ToolReply::Shell(exited))), "a\nb\n");
    assert_eq!(error(exec("shell", "{}")).message(), "Missing required 'command' parameter");
}

#[test]
fn shell_reports_failures_as_results() {
    let (_, followup) = ask(exec("shell", "{\"command\":\"false\"}"));
    let exited = ShellOutcome::Exited {
        success: false,
        status: "exit status: 1".to_string(),
        stdout: "".to_string(),
        stderr: "boom".to_string(),
    };
    assert_eq!(done(followup.resume(ToolReply::Shell(exited))), "Error (exit exit status: 1): boom");
    let (_, followup) = ask(exec("shell", "{\"command\":\"sleep 99\"}"));
    assert_eq!(done(followup.resume(ToolReply::Shell(ShellOutcome::TimedOut))), "Shell timeout after 30s");
    let (_, followup) = ask(exec("shell", "{\"command\":\"x\"}"));
    assert_eq!(
        done(followup.resume(ToolReply::Shell(ShellOutcome::WaitFailed("lost".to_string())))),
        "Shell error: lost"
    );
    let (_, followup) = ask(exec("shell", "{\"command\":\"x\"}"));
    let e = error(followup.resume(ToolReply::Shell(ShellOutcome::SpawnFailed("no sh".to_string()))));
    assert_eq!(e.message(), "Shell spawn error: no sh");
}

#[test]
fn shell_timeout_is_written_in_decimal() {
    let tool = ShellTool::new(1205);
    let args = ToolArgs::parse("{\"command\":\"x\"}").unwrap();
    let (_, followup) = ask(tool.execute(&args, &ctx()));
    assert_eq!(
        done(followup.resume(ToolReply::Shell(ShellOutcome::TimedOut))),
        "Shell timeout after 1205s"
    );
    let tool = ShellTool::new(0);
    let (_, followup) = ask(tool.execute(&args, &ctx()));
    assert_eq!(done(followup.resume(ToolReply::Shell(ShellOutcome::TimedOut))), "Shell timeout after 0s");
}

#[test]
fn reply_of_the_wrong_kind_fails_the_call() {
    let (_, followup) = ask(exec("shell", "{\"command\":\"x\"}"));
    let e = error(followup.resume(ToolReply::File(FileReply::Done)));
    assert_eq!(e.message(), "Unexpected reply");
    let (_, followup) = ask(exec("read_core_memory", "{\"file\":\"user.md\"}"));
    let e = error(followup.resume(ToolReply::File(FileReply::Done)));
    assert_eq!(e.message(), "Unexpected reply");
}

#[test]
fn tool_structs_name_and_describe_themselves() {
    assert_eq!(SearchLogsTool.name(), "search_logs");
    assert_eq!(ReadCoreMemoryTool.name(), "read_core_memory");
    assert_eq!(UpdateCoreMemoryTool.name(), "update_core_memory");
    assert_eq!(ReadDailyLogTool.name(), "read_daily_log");
    assert_eq!(WriteSummaryTool.name(), "write_summary");
    assert_eq!(AppendLogTool.name(), "append_note");
    assert_eq!(ReadFileTool.name(), "read_file");
    assert_eq!(ShellTool::new(5).name(), "shell");
    assert_eq!(ReadDailyLogTool.description(), "Read a daily log by date (YYYY-MM-DD)");
    assert!(is_json(SearchLogsTool.parameters()));
    assert!(is_json(ReadCoreMemoryTool.parameters()));
    assert!(is_json(UpdateCoreMemoryTool.parameters()));
    assert!(is_json(ReadDailyLogTool.parameters()));
    assert!(is_json(WriteSummaryTool.parameters()));
    assert!(is_json(AppendLogTool.parameters()));
    assert!(is_json(ReadFileTool.parameters()));
    assert!(is_json(ShellTool::new(5).parameters()));
}

#[test]
fn definitions_are_sorted_by_name_for_the_model() {
    let reg = full_registry();
    let names: Vec<String> = reg.tool_defs().into_iter().map(|d| d.function.name).collect();
    assert_eq!(
        names,
        vec![
            "append_note",
            "read_core_memory",
            "read_daily_log",
            "read_file",
            "search_logs",
            "shell",
            "update_core_memory",
            "write_summary"
        ]
    );
    let listed: Vec<String> = reg.tool_defs_mcp().into_iter().map(|d| d.name).collect();
    assert_eq!(
        listed,
        vec![
            "shell",
            "search_logs",
            "read_core_memory",
            "update_core_memory",
            "append_note",
            "read_daily_log",
            "write_summary",
            "read_file"
        ]
    );
}

#[test]
fn later_registration_replaces_the_earlier_one() {
    let mut reg = ToolRegistry::new(ctx());
    reg.add(ToolKind::Shell(10));
    reg.add(ToolKind::ReadFile);
    reg.add(ToolKind::Shell(99));
    assert_eq!(reg.find("shell"), Some(ToolKind::Shell(99)));
    assert_eq!(reg.find("read_file"), Some(ToolKind::ReadFile));
    assert_eq!(reg.find("search_logs"), None);
    let listed: Vec<String> = reg.tool_defs_mcp().into_iter().map(|d| d.name).collect();
    assert_eq!(listed, vec!["read_file", "shell"]);
    let (request, _) = ask(reg.execute("shell", "{\"command\":\"x\"}", "2026-02-17"));
    match request {
        ToolRequest::Shell { timeout_secs, .. } => assert_eq!(timeout_secs, 99),
        other => panic!("unexpected request {:?}", other),
    }
}
