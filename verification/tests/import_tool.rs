use ikoro::config::MemoryConfig;
use ikoro::memory::{FileReply, FileRequest, MemoryManager};
use ikoro::tools::args::{is_json, ToolArgs};
use ikoro::tools::import::ImportDailyOpsTool;
use ikoro::tools::{Followup, ToolContext, ToolError, ToolReply, ToolRequest, ToolStep};

fn ctx() -> ToolContext {
    let config = MemoryConfig { base_dir: "/mem".to_string(), core_memory_max_tokens: 2000 };
    ToolContext { memory: MemoryManager::new(&config), base_dir: "/mem".to_string() }
}

fn import(args: &str) -> Result<ToolStep, ToolError> {
    ImportDailyOpsTool.execute(&ToolArgs::parse(args).unwrap(), &ctx(), "/home/a")
}

fn done(step: Result<ToolStep, ToolError>) -> String {
    match step {
        Ok(ToolStep::Done(r)) => r.for_llm,
        other => panic!("expected a finished call, got {:?}", other),
    }
}

fn ask(step: Result<ToolStep, ToolError>) -> (ToolRequest, Followup) {
    match step {
        Ok(ToolStep::Ask { request, followup }) => (request, followup),
        other => panic!("expected a request, got {:?}", other),
    }
}

fn reads(request: &ToolRequest) -> &str {
    match request {
        ToolRequest::File(FileRequest::Read { path }) => path,
        other => panic!("expected a read, got {:?}", other),
    }
}

fn text(t: &str) -> ToolReply {
    ToolReply::File(FileReply::Text(t.to_string()))
}

#[test]
fn import_needs_a_date_of_three_parts() {
    assert_eq!(done(import("{}")), "Error: date is required");
    assert_eq!(done(import("{\"date\":\"\"}")), "Error: date is required");
    assert_eq!(done(import("{\"date\":7}")), "Error: date is required");
    assert_eq!(done(import("{\"date\":\"2026-02\"}")), "Error: date must be YYYY-MM-DD format");
    assert_eq!(done(import("{\"date\":\"a-b-c-d\"}")), "Error: date must be YYYY-MM-DD format");
    assert_eq!(done(import("{\"date\":\"20260217\"}")), "Error: date must be YYYY-MM-DD format");
}

#[test]
fn import_looks_for_the_file_then_for_the_readme() {
    let (request, followup) = ask(import("{\"date\":\"2026-02-17\"}"));
    assert_eq!(reads(&request), "/home/a/kondo-daily-ops/logs/2026/02/17.md");
    let (request, followup) = ask(followup.resume(ToolReply::File(FileReply::Missing)));
    assert_eq!(reads(&request), "/home/a/kondo-daily-ops/logs/2026/02/17/README.md");
    assert_eq!(
        done(followup.resume(ToolReply::File(FileReply::Missing))),
        "No log found for 2026-02-17 at /home/a/kondo-daily-ops/logs/2026/02/17.md or /home/a/kondo-daily-ops/logs/2026/02/17/README.md"
    );
}

#[test]
fn import_writes_a_new_log() {
    let (_, followup) = ask(import("{\"date\":\"2026-02-17\"}"));
    let (request, followup) = ask(followup.resume(text("h\u{e9}llo")));
    assert_eq!(reads(&request), "/mem/logs/daily/2026-02-17.md");
    let (request, followup) = ask(followup.resume(ToolReply::File(FileReply::Missing)));
    match &request {
        ToolRequest::File(FileRequest::Write { path, content, make_parent }) => {
            assert_eq!(path, "/mem/logs/daily/2026-02-17.md");
            assert_eq!(content, "h\u{e9}llo");
            assert!(*make_parent);
        }
        other => panic!("expected a write, got {:?}", other),
    }
    assert_eq!(
        done(followup.resume(ToolReply::File(FileReply::Done))),
        "Imported log for 2026-02-17 (6 bytes)"
    );
}

#[test]
fn import_goes_behind_what_the_log_holds() {
    let (_, followup) = ask(import("{\"date\":\"2026-02-17\"}"));
    let (_, followup) = ask(followup.resume(ToolReply::File(FileReply::Missing)));
    let (_, followup) = ask(followup.resume(text("from readme")));
    let (request, followup) = ask(followup.resume(text("# 2026-02-17\n\n- note\n")));
    match &request {
        ToolRequest::File(FileRequest::Write { content, .. }) => assert_eq!(
            content,
            "# 2026-02-17\n\n- note\n\n\n---\n## Imported from kondo-daily-ops\n\nfrom readme"
        ),
        other => panic!("expected a write, got {:?}", other),
    }
    assert_eq!(
        done(followup.resume(ToolReply::File(FileReply::Done))),
        "Imported log for 2026-02-17 (11 bytes)"
    );
}

#[test]
fn import_reports_what_fails() {
    let (_, followup) = ask(import("{\"date\":\"2026-02-17\"}"));
    let e = followup.resume(ToolReply::File(FileReply::Failed("denied".to_string()))).unwrap_err();
    assert_eq!(e.message(), "denied");
    let (_, followup) = ask(import("{\"date\":\"2026-02-17\"}"));
    let (_, followup) = ask(followup.resume(text("x")));
    let (_, followup) = ask(followup.resume(ToolReply::File(FileReply::Missing)));
    let e = followup.resume(ToolReply::File(FileReply::Failed("disk full".to_string()))).unwrap_err();
    assert_eq!(e.message(), "disk full");
    assert_eq!(ImportDailyOpsTool.name(), "import_dailyops");
    assert!(is_json(ImportDailyOpsTool.parameters()));
    assert!(ImportDailyOpsTool.description().starts_with("Import a log file"));
}
