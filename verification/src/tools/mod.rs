//! The tools that the model may call, and the registry that dispatches to
//! them.
//!
//! A tool never touches a file or a process itself. Running one yields a
//! [`ToolStep`]: either the finished result, or a request for outside work
//! together with the [`Followup`] that turns the reply into the next step.

pub mod args;
pub mod file;
pub mod import;
pub mod kind;
pub mod memory;
pub mod registry;
pub mod shell;

use vstd::prelude::*;
use vstd::string::{StringExecFns, StringSliceAdditionalSpecFns};
use vstd::utf8::encode_utf8;
use crate::memory::{
    fault_message, logs_model, search_result, DailyLog, FileOp, FileReply, FileRequest, FileResult,
    MemoryError, MemoryFault, MemoryManager,
};
use crate::text::{
    chars_of, concat, concat3, decimal, join, join_path, join_strings, joined, push_decimal,
    starts_with,
};
use crate::tools::args::{text_member, ToolArgs};
pub use crate::tools::kind::ToolKind;
pub use crate::tools::registry::ToolRegistry;

verus! {

/// What a tool hands back to the model.
#[derive(Debug)]
pub struct ToolResult {
    pub for_llm: String,
}

/// What every tool works with: the memory store, and the directory that
/// file tools and the shell are confined to.
pub struct ToolContext {
    pub memory: MemoryManager,
    pub base_dir: String,
}

/// Why a tool call failed.
#[derive(Debug)]
pub enum ToolError {
    /// No tool of that name is registered.
    UnknownTool(String),
    /// The arguments of the call are not JSON.
    InvalidArguments { tool: String, reason: String },
    /// The arguments lack a string member that the tool needs.
    MissingParameter(String),
    /// The memory store refused a name, a date or a period id.
    Memory(MemoryError),
    /// The outside work failed.
    Failed(String),
}

/// A `ToolError`, as the contracts speak of it.
pub enum ToolFault {
    UnknownTool(Seq<char>),
    InvalidArguments { tool: Seq<char>, reason: Seq<char> },
    MissingParameter(Seq<char>),
    Memory(MemoryFault, Seq<char>),
    Failed(Seq<char>),
}

impl View for ToolError {
    type V = ToolFault;

    open spec fn view(&self) -> ToolFault {
        match self {
            ToolError::UnknownTool(n) => ToolFault::UnknownTool(n@),
            ToolError::InvalidArguments { tool, reason } => ToolFault::InvalidArguments {
                tool: tool@,
                reason: reason@,
            },
            ToolError::MissingParameter(k) => ToolFault::MissingParameter(k@),
            ToolError::Memory(e) => ToolFault::Memory(e.fault, e.subject@),
            ToolError::Failed(m) => ToolFault::Failed(m@),
        }
    }
}

impl ToolFault {
    /// The message shown for this error.
    pub open spec fn message(self) -> Seq<char> {
        match self {
            ToolFault::UnknownTool(n) => "Unknown tool: "@ + n,
            ToolFault::InvalidArguments { tool, reason } => "Invalid tool arguments for "@ + tool
                + ": "@ + reason,
            ToolFault::MissingParameter(k) => "Missing required '"@ + k + "' parameter"@,
            ToolFault::Memory(fault, subject) => fault_message((fault, subject)),
            ToolFault::Failed(m) => m,
        }
    }
}

impl ToolError {
    pub fn message(&self) -> (m: String)
        ensures
            m@ == self@.message(),
    {
        match self {
            ToolError::UnknownTool(n) => concat("Unknown tool: ", n.as_str()),
            ToolError::InvalidArguments { tool, reason } => {
                let mut m = String::from_str("Invalid tool arguments for ");
                m.append(tool.as_str());
                m.append(": ");
                m.append(reason.as_str());
                m
            },
            ToolError::MissingParameter(k) => concat3(
                "Missing required '",
                k.as_str(),
                "' parameter",
            ),
            ToolError::Memory(e) => e.message(),
            ToolError::Failed(m) => m.clone(),
        }
    }
}

/// How a shell command ended.
#[derive(Debug)]
pub enum ShellOutcome {
    /// The shell could not be started.
    SpawnFailed(String),
    /// Waiting for the command failed.
    WaitFailed(String),
    /// The command ran longer than it may and was killed.
    TimedOut,
    /// The command ran to its end. `status` is the exit status as the
    /// system words it.
    Exited { success: bool, status: String, stdout: String, stderr: String },
}

/// A `ShellOutcome`, as the contracts speak of it.
pub enum ShellEnd {
    SpawnFailed(Seq<char>),
    WaitFailed(Seq<char>),
    TimedOut,
    Exited { success: bool, status: Seq<char>, stdout: Seq<char>, stderr: Seq<char> },
}

impl View for ShellOutcome {
    type V = ShellEnd;

    open spec fn view(&self) -> ShellEnd {
        match self {
            ShellOutcome::SpawnFailed(e) => ShellEnd::SpawnFailed(e@),
            ShellOutcome::WaitFailed(e) => ShellEnd::WaitFailed(e@),
            ShellOutcome::TimedOut => ShellEnd::TimedOut,
            ShellOutcome::Exited { success, status, stdout, stderr } => ShellEnd::Exited {
                success: *success,
                status: status@,
                stdout: stdout@,
                stderr: stderr@,
            },
        }
    }
}

/// Outside work that a tool asks of its caller.
#[derive(Debug)]
pub enum ToolRequest {
    /// A file operation of the memory store.
    File(FileRequest),
    /// Read every file in `dir` whose extension is `md`, in the order of
    /// the file names; each is a daily log named after its day.
    DailyLogs { dir: String },
    /// Resolve `path` and `base` to absolute paths without links or dots.
    Resolve { path: String, base: String },
    /// Run `command` through `sh -c` in the directory `dir`, and kill it
    /// with its process group after `timeout_secs` seconds.
    Shell { command: String, dir: String, timeout_secs: u64 },
}

/// A `ToolRequest`, as the contracts speak of it.
pub enum Work {
    File(FileOp),
    DailyLogs { dir: Seq<char> },
    Resolve { path: Seq<char>, base: Seq<char> },
    Shell { command: Seq<char>, dir: Seq<char>, timeout_secs: u64 },
}

impl View for ToolRequest {
    type V = Work;

    open spec fn view(&self) -> Work {
        match self {
            ToolRequest::File(f) => Work::File(f@),
            ToolRequest::DailyLogs { dir } => Work::DailyLogs { dir: dir@ },
            ToolRequest::Resolve { path, base } => Work::Resolve { path: path@, base: base@ },
            ToolRequest::Shell { command, dir, timeout_secs } => Work::Shell {
                command: command@,
                dir: dir@,
                timeout_secs: *timeout_secs,
            },
        }
    }
}

/// What came of the outside work.
#[derive(Debug)]
pub enum ToolReply {
    File(FileReply),
    /// The daily logs, or why they could not be read.
    DailyLogs(Result<Vec<DailyLog>, String>),
    /// The two resolved paths, each or why it could not be resolved.
    Resolved { path: Result<String, String>, base: Result<String, String> },
    Shell(ShellOutcome),
}

/// A `ToolReply`, as the contracts speak of it.
pub enum Answer {
    File(FileResult),
    DailyLogs(Result<Seq<(Seq<char>, Seq<char>)>, Seq<char>>),
    Resolved { path: Result<Seq<char>, Seq<char>>, base: Result<Seq<char>, Seq<char>> },
    Shell(ShellEnd),
}

/// A path or the reason why there is none, as the contracts speak of it.
pub open spec fn text_result(r: Result<String, String>) -> Result<Seq<char>, Seq<char>> {
    match r {
        Ok(s) => Ok(s@),
        Err(e) => Err(e@),
    }
}

impl View for ToolReply {
    type V = Answer;

    open spec fn view(&self) -> Answer {
        match self {
            ToolReply::File(f) => Answer::File(f@),
            ToolReply::DailyLogs(Ok(logs)) => Answer::DailyLogs(Ok(logs_model(logs@))),
            ToolReply::DailyLogs(Err(e)) => Answer::DailyLogs(Err(e@)),
            ToolReply::Resolved { path, base } => Answer::Resolved {
                path: text_result(*path),
                base: text_result(*base),
            },
            ToolReply::Shell(s) => Answer::Shell(s@),
        }
    }
}

/// How the reply to a request becomes the tool's next step.
#[derive(Debug)]
pub enum Followup {
    /// The text that was read is the result. For an absent file the result
    /// is `absent`, and without it the call fails. A failure is reported in
    /// the words of `failure`, and without them in the reply's own.
    Text { absent: Option<String>, failure: Option<String> },
    /// The text that was read is the result; a failure is a result too, and
    /// names the file as `shown`.
    FileText { shown: String },
    /// Once the write went through the result is `done`. A failure is
    /// reported as for `Text`.
    Confirm { done: String, failure: Option<String> },
    /// The result lists the lines of the logs that hold `query`.
    Search { query: String, limit: usize },
    /// The resolved path is read only if it lies within the resolved base.
    Sandbox { shown: String },
    /// The result is what the command printed, or how it failed.
    Shell { timeout_secs: u64 },
    /// The log that was read is imported as the log of `date`; where the
    /// file `file` is absent, the `README.md` in `dir` is read in its place.
    ImportSource { date: String, file: String, dir: String, target: String },
    /// The log that was read is imported as the log of `date`; where it is
    /// absent too, the result says that no log was found.
    ImportReadme { date: String, file: String, dir: String, target: String },
    /// `content` is written to `target`, behind what `target` already
    /// holds.
    ImportTarget { date: String, target: String, content: String },
}

/// A `Followup`, as the contracts speak of it.
pub enum Sequel {
    Text { absent: Option<Seq<char>>, failure: Option<Seq<char>> },
    FileText { shown: Seq<char> },
    Confirm { done: Seq<char>, failure: Option<Seq<char>> },
    Search { query: Seq<char>, limit: usize },
    Sandbox { shown: Seq<char> },
    Shell { timeout_secs: u64 },
    ImportSource { date: Seq<char>, file: Seq<char>, dir: Seq<char>, target: Seq<char> },
    ImportReadme { date: Seq<char>, file: Seq<char>, dir: Seq<char>, target: Seq<char> },
    ImportTarget { date: Seq<char>, target: Seq<char>, content: Seq<char> },
}

impl View for Followup {
    type V = Sequel;

    open spec fn view(&self) -> Sequel {
        match self {
            Followup::Text { absent, failure } => Sequel::Text {
                absent: absent.deep_view(),
                failure: failure.deep_view(),
            },
            Followup::FileText { shown } => Sequel::FileText { shown: shown@ },
            Followup::Confirm { done, failure } => Sequel::Confirm {
                done: done@,
                failure: failure.deep_view(),
            },
            Followup::Search { query, limit } => Sequel::Search { query: query@, limit: *limit },
            Followup::Sandbox { shown } => Sequel::Sandbox { shown: shown@ },
            Followup::Shell { timeout_secs } => Sequel::Shell { timeout_secs: *timeout_secs },
            Followup::ImportSource { date, file, dir, target } => Sequel::ImportSource {
                date: date@,
                file: file@,
                dir: dir@,
                target: target@,
            },
            Followup::ImportReadme { date, file, dir, target } => Sequel::ImportReadme {
                date: date@,
                file: file@,
                dir: dir@,
                target: target@,
            },
            Followup::ImportTarget { date, target, content } => Sequel::ImportTarget {
                date: date@,
                target: target@,
                content: content@,
            },
        }
    }
}

/// Where a tool call stands.
#[derive(Debug)]
pub enum ToolStep {
    /// The call is finished.
    Done(ToolResult),
    /// The caller performs `request` and hands the reply to `followup`.
    Ask { request: ToolRequest, followup: Followup },
}

/// A `ToolStep`, as the contracts speak of it.
pub enum Step {
    Done(Seq<char>),
    Ask { request: Work, followup: Sequel },
}

impl View for ToolStep {
    type V = Step;

    open spec fn view(&self) -> Step {
        match self {
            ToolStep::Done(r) => Step::Done(r.for_llm@),
            ToolStep::Ask { request, followup } => Step::Ask {
                request: request@,
                followup: followup@,
            },
        }
    }
}

/// The outcome of a tool's step, as the contracts speak of it.
pub open spec fn outcome(r: Result<ToolStep, ToolError>) -> Result<Step, ToolFault> {
    match r {
        Ok(s) => Ok(s@),
        Err(e) => Err(e@),
    }
}

/// A finished call with the result `text`.
pub open spec fn done(text: Seq<char>) -> Result<Step, ToolFault> {
    Ok(Step::Done(text))
}

/// A call that lacks the string member `key`.
pub open spec fn missing(key: Seq<char>) -> Result<Step, ToolFault> {
    Err(ToolFault::MissingParameter(key))
}

/// The string member `key` of a tool call's arguments.
pub fn require_str<'a>(args: &'a ToolArgs, key: &str) -> (r: Result<&'a String, ToolError>)
    ensures
        match r {
            Ok(s) => text_member(args@, key@) == Some(s@),
            Err(e) => text_member(args@, key@) is None && e@ == ToolFault::MissingParameter(
                key@,
            ),
        },
{
    match args.get_str(key) {
        Some(s) => Ok(s),
        None => Err(ToolError::MissingParameter(String::from_str(key))),
    }
}

/// A finished call.
pub fn ok(s: String) -> (r: Result<ToolStep, ToolError>)
    ensures
        outcome(r) == done(s@),
{
    Ok(ToolStep::Done(ToolResult { for_llm: s }))
}

/// `base` as the beginning of the paths below it: with `/` at its end.
pub open spec fn dir_prefix(base: Seq<char>) -> Seq<char> {
    if base.len() > 0 && base.last() == '/' {
        base
    } else {
        base + seq!['/']
    }
}

/// Whether the resolved `path` is the resolved `base` or lies below it.
pub open spec fn path_within(path: Seq<char>, base: Seq<char>) -> bool {
    path == base || dir_prefix(base).is_prefix_of(path)
}

pub fn is_within(path: &str, base: &str) -> (r: bool)
    ensures
        r == path_within(path@, base@),
{
    let p = chars_of(path);
    let mut b = chars_of(base);
    if crate::text::same_text(path, base) {
        return true;
    }
    if b.len() == 0 || b[b.len() - 1] != '/' {
        b.push('/');
    }
    assert(b@ =~= dir_prefix(base@));
    starts_with(&p, &b)
}

/// What a search reports to the model.
pub open spec fn search_text(logs: Seq<(Seq<char>, Seq<char>)>, query: Seq<char>, limit: int) -> Seq<
    char,
> {
    let found = search_result(logs, query, limit);
    if found.len() == 0 {
        "No results found."@
    } else {
        join(found, "\n"@)
    }
}

/// The words in which a failure is reported: those chosen beforehand, or
/// else the reply's own.
pub open spec fn failure_text(chosen: Option<Seq<char>>, own: Seq<char>) -> Seq<char> {
    match chosen {
        Some(f) => f,
        None => own,
    }
}

/// The step that follows when `answer` is the reply to the request that
/// `sequel` came with. A reply of another kind than was asked for fails
/// the call.
pub open spec fn resumed(sequel: Sequel, answer: Answer) -> Result<Step, ToolFault> {
    match (sequel, answer) {
        (Sequel::Text { .. }, Answer::File(FileResult::Text(t))) => done(t),
        (Sequel::Text { absent: Some(a), .. }, Answer::File(FileResult::Missing)) => done(a),
        (Sequel::Text { absent: None, failure }, Answer::File(FileResult::Missing)) => Err(
            ToolFault::Failed(failure_text(failure, "File not found"@)),
        ),
        (Sequel::Text { failure, .. }, Answer::File(FileResult::Failed(e))) => Err(
            ToolFault::Failed(failure_text(failure, e)),
        ),
        (Sequel::FileText { .. }, Answer::File(FileResult::Text(t))) => done(t),
        (Sequel::FileText { shown }, Answer::File(FileResult::Missing)) => done(
            "Error reading "@ + shown + ": "@ + "File not found"@,
        ),
        (Sequel::FileText { shown }, Answer::File(FileResult::Failed(e))) => done(
            "Error reading "@ + shown + ": "@ + e,
        ),
        (Sequel::Confirm { done: d, .. }, Answer::File(FileResult::Done)) => done(d),
        (Sequel::Confirm { failure, .. }, Answer::File(FileResult::Failed(e))) => Err(
            ToolFault::Failed(failure_text(failure, e)),
        ),
        (Sequel::Search { query, limit }, Answer::DailyLogs(Ok(logs))) => done(
            search_text(logs, query, limit as int),
        ),
        (Sequel::Search { .. }, Answer::DailyLogs(Err(e))) => Err(ToolFault::Failed(e)),
        (Sequel::Sandbox { .. }, Answer::Resolved { path: Err(e), .. }) => done(
            "Error: cannot resolve path: "@ + e,
        ),
        (Sequel::Sandbox { .. }, Answer::Resolved { path: Ok(_), base: Err(e) }) => done(
            "Error: cannot resolve base dir: "@ + e,
        ),
        (Sequel::Sandbox { shown }, Answer::Resolved { path: Ok(p), base: Ok(b) }) => if path_within(
            p,
            b,
        ) {
            Ok(
                Step::Ask {
                    request: Work::File(FileOp::Read { path: p }),
                    followup: Sequel::FileText { shown },
                },
            )
        } else {
            done("Error: path outside memory directory: "@ + shown)
        },
        (Sequel::Shell { .. }, Answer::Shell(ShellEnd::SpawnFailed(e))) => Err(
            ToolFault::Failed("Shell spawn error: "@ + e),
        ),
        (Sequel::Shell { .. }, Answer::Shell(ShellEnd::WaitFailed(e))) => done(
            "Shell error: "@ + e,
        ),
        (Sequel::Shell { timeout_secs }, Answer::Shell(ShellEnd::TimedOut)) => done(
            "Shell timeout after "@ + decimal(timeout_secs as nat) + "s"@,
        ),
        (Sequel::Shell { .. }, Answer::Shell(ShellEnd::Exited { success, status, stdout, stderr })) => if success {
            done(stdout)
        } else {
            done("Error (exit "@ + status + "): "@ + stderr)
        },
        (Sequel::ImportSource { date, target, .. }, Answer::File(FileResult::Text(t))) => Ok(
            import_target_step(date, target, t),
        ),
        (Sequel::ImportSource { date, file, dir, target }, Answer::File(FileResult::Missing)) => Ok(
            Step::Ask {
                request: Work::File(FileOp::Read { path: joined(dir, "README.md"@) }),
                followup: Sequel::ImportReadme { date, file, dir, target },
            },
        ),
        (Sequel::ImportSource { .. }, Answer::File(FileResult::Failed(e))) => Err(
            ToolFault::Failed(e),
        ),
        (Sequel::ImportReadme { date, target, .. }, Answer::File(FileResult::Text(t))) => Ok(
            import_target_step(date, target, t),
        ),
        (Sequel::ImportReadme { date, file, dir, .. }, Answer::File(FileResult::Missing)) => done(
            "No log found for "@ + date + " at "@ + file + " or "@ + dir + "/README.md"@,
        ),
        (Sequel::ImportReadme { .. }, Answer::File(FileResult::Failed(e))) => Err(
            ToolFault::Failed(e),
        ),
        (Sequel::ImportTarget { date, target, content }, Answer::File(FileResult::Missing)) => Ok(
            import_write_step(date, target, content, content),
        ),
        (Sequel::ImportTarget { date, target, content }, Answer::File(FileResult::Text(held))) => Ok(
            import_write_step(date, target, held + IMPORT_DIVIDER@ + content, content),
        ),
        (Sequel::ImportTarget { .. }, Answer::File(FileResult::Failed(e))) => Err(
            ToolFault::Failed(e),
        ),
        _ => Err(ToolFault::Failed("Unexpected reply"@)),
    }
}

/// What stands between what a log held and what is imported behind it.
pub const IMPORT_DIVIDER: &'static str = "\n\n---\n## Imported from kondo-daily-ops\n\n";

/// The step that looks at the log into which `content` is imported.
pub open spec fn import_target_step(date: Seq<char>, target: Seq<char>, content: Seq<char>) -> Step {
    Step::Ask {
        request: Work::File(FileOp::Read { path: target }),
        followup: Sequel::ImportTarget { date, target, content },
    }
}

/// The step that writes `text` as the log of `date`, of which `content` is
/// what was imported.
pub open spec fn import_write_step(
    date: Seq<char>,
    target: Seq<char>,
    text: Seq<char>,
    content: Seq<char>,
) -> Step {
    Step::Ask {
        request: Work::File(FileOp::Write { path: target, content: text, make_parent: true }),
        followup: Sequel::Confirm {
            done: "Imported log for "@ + date + " ("@ + decimal(encode_utf8(content).len())
                + " bytes)"@,
            failure: None,
        },
    }
}

fn import_target(date: String, target: String, content: String) -> (r: Result<
    ToolStep,
    ToolError,
>)
    ensures
        outcome(r) == Ok::<Step, ToolFault>(import_target_step(date@, target@, content@)),
{
    Ok(
        ToolStep::Ask {
            request: ToolRequest::File(FileRequest::Read { path: target.clone() }),
            followup: Followup::ImportTarget { date, target, content },
        },
    )
}

fn import_write(date: String, target: String, text: String, content: String) -> (r: Result<
    ToolStep,
    ToolError,
>)
    ensures
        outcome(r) == Ok::<Step, ToolFault>(
            import_write_step(date@, target@, text@, content@),
        ),
{
    let mut done = String::from_str("Imported log for ");
    done.append(date.as_str());
    done.append(" (");
    let bytes: usize = content.as_str().as_bytes().len();
    assert(bytes == encode_utf8(content@).len());
    push_decimal(&mut done, bytes as u64);
    done.append(" bytes)");
    Ok(
        ToolStep::Ask {
            request: ToolRequest::File(
                FileRequest::Write { path: target, content: text, make_parent: true },
            ),
            followup: Followup::Confirm { done, failure: None },
        },
    )
}

fn failed(chosen: Option<String>, own: String) -> (r: Result<ToolStep, ToolError>)
    ensures
        outcome(r) == Err::<Step, ToolFault>(
            ToolFault::Failed(failure_text(chosen.deep_view(), own@)),
        ),
{
    match chosen {
        Some(f) => Err(ToolError::Failed(f)),
        None => Err(ToolError::Failed(own)),
    }
}

fn unexpected() -> (r: Result<ToolStep, ToolError>)
    ensures
        outcome(r) == Err::<Step, ToolFault>(ToolFault::Failed("Unexpected reply"@)),
{
    Err(ToolError::Failed(String::from_str("Unexpected reply")))
}

impl Followup {
    /// Takes the reply to the request that this followup came with, and
    /// gives the tool's next step.
    pub fn resume(self, reply: ToolReply) -> (r: Result<ToolStep, ToolError>)
        ensures
            outcome(r) == resumed(self@, reply@),
    {
        match self {
            Followup::Text { absent, failure } => match reply {
                ToolReply::File(FileReply::Text(t)) => ok(t),
                ToolReply::File(FileReply::Missing) => match absent {
                    Some(a) => ok(a),
                    None => failed(failure, String::from_str("File not found")),
                },
                ToolReply::File(FileReply::Failed(e)) => failed(failure, e),
                _ => unexpected(),
            },
            Followup::FileText { shown } => match reply {
                ToolReply::File(FileReply::Text(t)) => ok(t),
                ToolReply::File(FileReply::Missing) => {
                    let mut m = String::from_str("Error reading ");
                    m.append(shown.as_str());
                    m.append(": ");
                    m.append("File not found");
                    ok(m)
                },
                ToolReply::File(FileReply::Failed(e)) => {
                    let mut m = String::from_str("Error reading ");
                    m.append(shown.as_str());
                    m.append(": ");
                    m.append(e.as_str());
                    ok(m)
                },
                _ => unexpected(),
            },
            Followup::Confirm { done, failure } => match reply {
                ToolReply::File(FileReply::Done) => ok(done),
                ToolReply::File(FileReply::Failed(e)) => failed(failure, e),
                _ => unexpected(),
            },
            Followup::Search { query, limit } => match reply {
                ToolReply::DailyLogs(Ok(logs)) => {
                    let found = MemoryManager::search_logs(&logs, query.as_str(), limit);
                    if found.len() == 0 {
                        ok(String::from_str("No results found."))
                    } else {
                        ok(join_strings(&found, "\n"))
                    }
                },
                ToolReply::DailyLogs(Err(e)) => Err(ToolError::Failed(e)),
                _ => unexpected(),
            },
            Followup::Sandbox { shown } => match reply {
                ToolReply::Resolved { path: Err(e), base: _ } => ok(
                    concat("Error: cannot resolve path: ", e.as_str()),
                ),
                ToolReply::Resolved { path: Ok(_), base: Err(e) } => ok(
                    concat("Error: cannot resolve base dir: ", e.as_str()),
                ),
                ToolReply::Resolved { path: Ok(p), base: Ok(b) } => {
                    if is_within(p.as_str(), b.as_str()) {
                        Ok(
                            ToolStep::Ask {
                                request: ToolRequest::File(FileRequest::Read { path: p }),
                                followup: Followup::FileText { shown },
                            },
                        )
                    } else {
                        ok(concat("Error: path outside memory directory: ", shown.as_str()))
                    }
                },
                _ => unexpected(),
            },
            Followup::Shell { timeout_secs } => match reply {
                ToolReply::Shell(ShellOutcome::SpawnFailed(e)) => Err(
                    ToolError::Failed(concat("Shell spawn error: ", e.as_str())),
                ),
                ToolReply::Shell(ShellOutcome::WaitFailed(e)) => ok(
                    concat("Shell error: ", e.as_str()),
                ),
                ToolReply::Shell(ShellOutcome::TimedOut) => {
                    let mut m = String::from_str("Shell timeout after ");
                    push_decimal(&mut m, timeout_secs);
                    m.append("s");
                    ok(m)
                },
                ToolReply::Shell(ShellOutcome::Exited { success, status, stdout, stderr }) => {
                    if success {
                        ok(stdout)
                    } else {
                        let mut m = String::from_str("Error (exit ");
                        m.append(status.as_str());
                        m.append("): ");
                        m.append(stderr.as_str());
                        ok(m)
                    }
                },
                _ => unexpected(),
            },
            Followup::ImportSource { date, file, dir, target } => match reply {
                ToolReply::File(FileReply::Text(t)) => import_target(date, target, t),
                ToolReply::File(FileReply::Missing) => Ok(
                    ToolStep::Ask {
                        request: ToolRequest::File(
                            FileRequest::Read { path: join_path(dir.as_str(), "README.md") },
                        ),
                        followup: Followup::ImportReadme { date, file, dir, target },
                    },
                ),
                ToolReply::File(FileReply::Failed(e)) => Err(ToolError::Failed(e)),
                _ => unexpected(),
            },
            Followup::ImportReadme { date, file, dir, target } => match reply {
                ToolReply::File(FileReply::Text(t)) => import_target(date, target, t),
                ToolReply::File(FileReply::Missing) => {
                    let mut m = String::from_str("No log found for ");
                    m.append(date.as_str());
                    m.append(" at ");
                    m.append(file.as_str());
                    m.append(" or ");
                    m.append(dir.as_str());
                    m.append("/README.md");
                    ok(m)
                },
                ToolReply::File(FileReply::Failed(e)) => Err(ToolError::Failed(e)),
                _ => unexpected(),
            },
            Followup::ImportTarget { date, target, content } => match reply {
                ToolReply::File(FileReply::Missing) => {
                    let text = content.clone();
                    import_write(date, target, text, content)
                },
                ToolReply::File(FileReply::Text(held)) => {
                    let mut text = held;
                    text.append(IMPORT_DIVIDER);
                    text.append(content.as_str());
                    import_write(date, target, text, content)
                },
                ToolReply::File(FileReply::Failed(e)) => Err(ToolError::Failed(e)),
                _ => unexpected(),
            },
        }
    }
}

} // verus!
