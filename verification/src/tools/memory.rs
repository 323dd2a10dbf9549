//! The tools that read and write the memory store.

use vstd::prelude::*;
use vstd::string::StringExecFns;
use crate::memory::{
    core_path, core_read_fault, core_write_fault, date_fault, month_fault, record_path, week_fault,
    FileOp,
};
use crate::text::{concat, joined, same_text};
use crate::tools::args::{text_member, unsigned_member, ArgModel, ToolArgs};
use crate::tools::{
    done, missing, ok, outcome, require_str, Followup, Sequel, Step, ToolContext, ToolError,
    ToolFault, ToolRequest, ToolStep, Work,
};

verus! {

pub const SEARCH_LOGS: &'static str = "search_logs";

pub const SEARCH_LOGS_ABOUT: &'static str =
    "Search past conversation logs and daily notes for a keyword";

pub const SEARCH_LOGS_SCHEMA: &'static str =
    "{\"type\":\"object\",\"properties\":{\"query\":{\"type\":\"string\"},\"limit\":{\"type\":\"integer\",\"description\":\"Max results (default 100)\"}},\"required\":[\"query\"]}";

pub const READ_CORE_MEMORY: &'static str = "read_core_memory";

pub const READ_CORE_MEMORY_ABOUT: &'static str =
    "Read a core memory file (identity.md, user.md, or state.md)";

pub const READ_CORE_MEMORY_SCHEMA: &'static str =
    "{\"type\":\"object\",\"properties\":{\"file\":{\"type\":\"string\",\"enum\":[\"identity.md\",\"user.md\",\"state.md\"]}},\"required\":[\"file\"]}";

pub const UPDATE_CORE_MEMORY: &'static str = "update_core_memory";

pub const UPDATE_CORE_MEMORY_ABOUT: &'static str = "Update user.md or state.md with new content";

pub const UPDATE_CORE_MEMORY_SCHEMA: &'static str =
    "{\"type\":\"object\",\"properties\":{\"file\":{\"type\":\"string\",\"enum\":[\"user.md\",\"state.md\"]},\"content\":{\"type\":\"string\"}},\"required\":[\"file\",\"content\"]}";

pub const READ_DAILY_LOG: &'static str = "read_daily_log";

pub const READ_DAILY_LOG_ABOUT: &'static str = "Read a daily log by date (YYYY-MM-DD)";

pub const READ_DAILY_LOG_SCHEMA: &'static str =
    "{\"type\":\"object\",\"properties\":{\"date\":{\"type\":\"string\"}},\"required\":[\"date\"]}";

pub const WRITE_SUMMARY: &'static str = "write_summary";

pub const WRITE_SUMMARY_ABOUT: &'static str =
    "Write a weekly or monthly summary. period='weekly' id='2026-W08', or period='monthly' id='2026-02'";

pub const WRITE_SUMMARY_SCHEMA: &'static str =
    "{\"type\":\"object\",\"properties\":{\"period\":{\"type\":\"string\",\"enum\":[\"weekly\",\"monthly\"]},\"id\":{\"type\":\"string\",\"description\":\"e.g. '2026-W08' or '2026-02'\"},\"content\":{\"type\":\"string\"}},\"required\":[\"period\",\"id\",\"content\"]}";

pub const APPEND_NOTE: &'static str = "append_note";

pub const APPEND_NOTE_ABOUT: &'static str = "Append a note to today's daily log";

pub const APPEND_NOTE_SCHEMA: &'static str =
    "{\"type\":\"object\",\"properties\":{\"text\":{\"type\":\"string\"}},\"required\":[\"text\"]}";

/// How many lines a search reports where the call does not say.
pub const DEFAULT_SEARCH_LIMIT: usize = 100;

/// How many lines a search may report: the member `limit` of the call,
/// or the default without it.
pub open spec fn search_limit(args: Seq<(Seq<char>, ArgModel)>) -> usize {
    match unsigned_member(args, "limit"@) {
        Some(n) => if n <= usize::MAX {
            n as usize
        } else {
            usize::MAX
        },
        None => DEFAULT_SEARCH_LIMIT,
    }
}

/// What a search of the logs comes to.
pub open spec fn search_logs_step(args: Seq<(Seq<char>, ArgModel)>, store: Seq<char>) -> Result<
    Step,
    ToolFault,
> {
    match text_member(args, "query"@) {
        None => missing("query"@),
        Some(query) => if query.len() == 0 {
            done("Error: 'query' must not be empty"@)
        } else {
            Ok(
                Step::Ask {
                    request: Work::DailyLogs { dir: joined(store, "logs/daily"@) },
                    followup: Sequel::Search { query, limit: search_limit(args) },
                },
            )
        },
    }
}

/// What reading a core memory file comes to.
pub open spec fn read_core_step(args: Seq<(Seq<char>, ArgModel)>, store: Seq<char>) -> Result<
    Step,
    ToolFault,
> {
    match text_member(args, "file"@) {
        None => missing("file"@),
        Some(file) => match core_read_fault(file) {
            Some(fault) => Err(ToolFault::Memory(fault, file)),
            None => Ok(
                Step::Ask {
                    request: Work::File(FileOp::Read { path: core_path(store, file) }),
                    followup: Sequel::Text {
                        absent: None,
                        failure: Some("Failed to read core memory: "@ + core_path(store, file)),
                    },
                },
            ),
        },
    }
}

/// What rewriting a core memory file comes to.
pub open spec fn update_core_step(args: Seq<(Seq<char>, ArgModel)>, store: Seq<char>) -> Result<
    Step,
    ToolFault,
> {
    match text_member(args, "file"@) {
        None => missing("file"@),
        Some(file) => match text_member(args, "content"@) {
            None => missing("content"@),
            Some(content) => if content.len() == 0 {
                done("Error: 'content' must not be empty"@)
            } else {
                match core_write_fault(file) {
                    Some(fault) => Err(ToolFault::Memory(fault, file)),
                    None => Ok(
                        Step::Ask {
                            request: Work::File(
                                FileOp::Write {
                                    path: core_path(store, file),
                                    content,
                                    make_parent: false,
                                },
                            ),
                            followup: Sequel::Confirm {
                                done: "Updated "@ + file,
                                failure: Some(
                                    "Failed to write core memory: "@ + core_path(store, file),
                                ),
                            },
                        },
                    ),
                }
            },
        },
    }
}

/// What reading the log of a day comes to.
pub open spec fn read_daily_log_step(args: Seq<(Seq<char>, ArgModel)>, store: Seq<char>) -> Result<
    Step,
    ToolFault,
> {
    match text_member(args, "date"@) {
        None => missing("date"@),
        Some(date) => match date_fault(date) {
            Some(fault) => Err(ToolFault::Memory(fault, date)),
            None => Ok(
                Step::Ask {
                    request: Work::File(FileOp::Read { path: record_path(store, "daily"@, date) }),
                    followup: Sequel::Text { absent: Some("No log for "@ + date), failure: None },
                },
            ),
        },
    }
}

/// The request to store the summary `id` of the series `period`, once `id`
/// has passed its check.
pub open spec fn summary_write(
    store: Seq<char>,
    period: Seq<char>,
    id: Seq<char>,
    content: Seq<char>,
) -> Result<Step, ToolFault> {
    Ok(
        Step::Ask {
            request: Work::File(
                FileOp::Write { path: record_path(store, period, id), content, make_parent: true },
            ),
            followup: Sequel::Confirm {
                done: "Written "@ + period + " summary: "@ + id,
                failure: None,
            },
        },
    )
}

/// What storing a periodic summary comes to.
pub open spec fn write_summary_step(args: Seq<(Seq<char>, ArgModel)>, store: Seq<char>) -> Result<
    Step,
    ToolFault,
> {
    match text_member(args, "period"@) {
        None => missing("period"@),
        Some(period) => match text_member(args, "id"@) {
            None => missing("id"@),
            Some(id) => match text_member(args, "content"@) {
                None => missing("content"@),
                Some(content) => if id.len() == 0 || content.len() == 0 {
                    done("Error: 'id' and 'content' must not be empty"@)
                } else if period == "weekly"@ {
                    match week_fault(id) {
                        Some(fault) => Err(ToolFault::Memory(fault, id)),
                        None => summary_write(store, period, id, content),
                    }
                } else if period == "monthly"@ {
                    match month_fault(id) {
                        Some(fault) => Err(ToolFault::Memory(fault, id)),
                        None => summary_write(store, period, id, content),
                    }
                } else {
                    done("Unknown period: "@ + period)
                },
            },
        },
    }
}

/// What adding a note to the log of `today` comes to.
pub open spec fn append_note_step(
    args: Seq<(Seq<char>, ArgModel)>,
    store: Seq<char>,
    today: Seq<char>,
) -> Result<Step, ToolFault> {
    match text_member(args, "text"@) {
        None => missing("text"@),
        Some(text) => if text.len() == 0 {
            done("Error: 'text' must not be empty"@)
        } else {
            Ok(
                Step::Ask {
                    request: Work::File(
                        FileOp::Append {
                            path: record_path(store, "daily"@, today),
                            header: "# "@ + today + "\n\n"@,
                            line: "- "@ + text + "\n"@,
                        },
                    ),
                    followup: Sequel::Confirm { done: "Note appended."@, failure: None },
                },
            )
        },
    }
}

/// Searches the daily logs for a keyword.
pub struct SearchLogsTool;

impl SearchLogsTool {
    pub fn name(&self) -> (n: &'static str)
        ensures
            n@ == SEARCH_LOGS@,
    {
        SEARCH_LOGS
    }

    pub fn description(&self) -> (d: &'static str)
        ensures
            d@ == SEARCH_LOGS_ABOUT@,
    {
        SEARCH_LOGS_ABOUT
    }

    pub fn parameters(&self) -> (p: &'static str)
        ensures
            p@ == SEARCH_LOGS_SCHEMA@,
    {
        SEARCH_LOGS_SCHEMA
    }

    pub fn execute(&self, args: &ToolArgs, ctx: &ToolContext) -> (r: Result<ToolStep, ToolError>)
        ensures
            outcome(r) == search_logs_step(args@, ctx.memory.base()),
    {
        let query = require_str(args, "query")?;
        if query.as_str().is_empty() {
            return ok(String::from_str("Error: 'query' must not be empty"));
        }
        let limit: usize = match args.get_u64("limit") {
            Some(n) => if n <= usize::MAX as u64 {
                n as usize
            } else {
                usize::MAX
            },
            None => DEFAULT_SEARCH_LIMIT,
        };
        Ok(
            ToolStep::Ask {
                request: ToolRequest::DailyLogs { dir: ctx.memory.logs_dir() },
                followup: Followup::Search { query: query.clone(), limit },
            },
        )
    }
}

/// Reads one of the core memory files.
pub struct ReadCoreMemoryTool;

impl ReadCoreMemoryTool {
    pub fn name(&self) -> (n: &'static str)
        ensures
            n@ == READ_CORE_MEMORY@,
    {
        READ_CORE_MEMORY
    }

    pub fn description(&self) -> (d: &'static str)
        ensures
            d@ == READ_CORE_MEMORY_ABOUT@,
    {
        READ_CORE_MEMORY_ABOUT
    }

    pub fn parameters(&self) -> (p: &'static str)
        ensures
            p@ == READ_CORE_MEMORY_SCHEMA@,
    {
        READ_CORE_MEMORY_SCHEMA
    }

    pub fn execute(&self, args: &ToolArgs, ctx: &ToolContext) -> (r: Result<ToolStep, ToolError>)
        ensures
            outcome(r) == read_core_step(args@, ctx.memory.base()),
    {
        let file = require_str(args, "file")?;
        match ctx.memory.read_core(file.as_str()) {
            Err(e) => Err(ToolError::Memory(e)),
            Ok(request) => {
                let path = ctx.memory.core_file(file.as_str());
                let failure = concat("Failed to read core memory: ", path.as_str());
                Ok(
                    ToolStep::Ask {
                        request: ToolRequest::File(request),
                        followup: Followup::Text { absent: None, failure: Some(failure) },
                    },
                )
            },
        }
    }
}

/// Rewrites one of the core memory files that may be rewritten.
pub struct UpdateCoreMemoryTool;

impl UpdateCoreMemoryTool {
    pub fn name(&self) -> (n: &'static str)
        ensures
            n@ == UPDATE_CORE_MEMORY@,
    {
        UPDATE_CORE_MEMORY
    }

    pub fn description(&self) -> (d: &'static str)
        ensures
            d@ == UPDATE_CORE_MEMORY_ABOUT@,
    {
        UPDATE_CORE_MEMORY_ABOUT
    }

    pub fn parameters(&self) -> (p: &'static str)
        ensures
            p@ == UPDATE_CORE_MEMORY_SCHEMA@,
    {
        UPDATE_CORE_MEMORY_SCHEMA
    }

    pub fn execute(&self, args: &ToolArgs, ctx: &ToolContext) -> (r: Result<ToolStep, ToolError>)
        ensures
            outcome(r) == update_core_step(args@, ctx.memory.base()),
    {
        let file = require_str(args, "file")?;
        let content = require_str(args, "content")?;
        if content.as_str().is_empty() {
            return ok(String::from_str("Error: 'content' must not be empty"));
        }
        match ctx.memory.write_core(file.as_str(), content.as_str()) {
            Err(e) => Err(ToolError::Memory(e)),
            Ok(request) => {
                let path = ctx.memory.core_file(file.as_str());
                let failure = concat("Failed to write core memory: ", path.as_str());
                Ok(
                    ToolStep::Ask {
                        request: ToolRequest::File(request),
                        followup: Followup::Confirm {
                            done: concat("Updated ", file.as_str()),
                            failure: Some(failure),
                        },
                    },
                )
            },
        }
    }
}

/// Reads the log of one day.
pub struct ReadDailyLogTool;

impl ReadDailyLogTool {
    pub fn name(&self) -> (n: &'static str)
        ensures
            n@ == READ_DAILY_LOG@,
    {
        READ_DAILY_LOG
    }

    pub fn description(&self) -> (d: &'static str)
        ensures
            d@ == READ_DAILY_LOG_ABOUT@,
    {
        READ_DAILY_LOG_ABOUT
    }

    pub fn parameters(&self) -> (p: &'static str)
        ensures
            p@ == READ_DAILY_LOG_SCHEMA@,
    {
        READ_DAILY_LOG_SCHEMA
    }

    pub fn execute(&self, args: &ToolArgs, ctx: &ToolContext) -> (r: Result<ToolStep, ToolError>)
        ensures
            outcome(r) == read_daily_log_step(args@, ctx.memory.base()),
    {
        let date = require_str(args, "date")?;
        match ctx.memory.read_daily_log(date.as_str()) {
            Err(e) => Err(ToolError::Memory(e)),
            Ok(request) => Ok(
                ToolStep::Ask {
                    request: ToolRequest::File(request),
                    followup: Followup::Text {
                        absent: Some(concat("No log for ", date.as_str())),
                        failure: None,
                    },
                },
            ),
        }
    }
}

/// Stores the summary of a week or a month.
pub struct WriteSummaryTool;

impl WriteSummaryTool {
    pub fn name(&self) -> (n: &'static str)
        ensures
            n@ == WRITE_SUMMARY@,
    {
        WRITE_SUMMARY
    }

    pub fn description(&self) -> (d: &'static str)
        ensures
            d@ == WRITE_SUMMARY_ABOUT@,
    {
        WRITE_SUMMARY_ABOUT
    }

    pub fn parameters(&self) -> (p: &'static str)
        ensures
            p@ == WRITE_SUMMARY_SCHEMA@,
    {
        WRITE_SUMMARY_SCHEMA
    }

    pub fn execute(&self, args: &ToolArgs, ctx: &ToolContext) -> (r: Result<ToolStep, ToolError>)
        ensures
            outcome(r) == write_summary_step(args@, ctx.memory.base()),
    {
        let period = require_str(args, "period")?;
        let id = require_str(args, "id")?;
        let content = require_str(args, "content")?;
        if id.as_str().is_empty() || content.as_str().is_empty() {
            return ok(String::from_str("Error: 'id' and 'content' must not be empty"));
        }
        let planned = if same_text(period.as_str(), "weekly") {
            ctx.memory.write_weekly_summary(id.as_str(), content.as_str())
        } else if same_text(period.as_str(), "monthly") {
            ctx.memory.write_monthly_summary(id.as_str(), content.as_str())
        } else {
            return ok(concat("Unknown period: ", period.as_str()));
        };
        match planned {
            Err(e) => Err(ToolError::Memory(e)),
            Ok(request) => {
                let mut done = String::from_str("Written ");
                done.append(period.as_str());
                done.append(" summary: ");
                done.append(id.as_str());
                Ok(
                    ToolStep::Ask {
                        request: ToolRequest::File(request),
                        followup: Followup::Confirm { done, failure: None },
                    },
                )
            },
        }
    }
}

/// Adds a note to the log of the day.
pub struct AppendLogTool;

impl AppendLogTool {
    pub fn name(&self) -> (n: &'static str)
        ensures
            n@ == APPEND_NOTE@,
    {
        APPEND_NOTE
    }

    pub fn description(&self) -> (d: &'static str)
        ensures
            d@ == APPEND_NOTE_ABOUT@,
    {
        APPEND_NOTE_ABOUT
    }

    pub fn parameters(&self) -> (p: &'static str)
        ensures
            p@ == APPEND_NOTE_SCHEMA@,
    {
        APPEND_NOTE_SCHEMA
    }

    /// `today` is the day, as `YYYY-MM-DD`, under which the note is filed.
    pub fn execute(&self, args: &ToolArgs, ctx: &ToolContext, today: &str) -> (r: Result<
        ToolStep,
        ToolError,
    >)
        ensures
            outcome(r) == append_note_step(args@, ctx.memory.base(), today@),
    {
        let text = require_str(args, "text")?;
        if text.as_str().is_empty() {
            return ok(String::from_str("Error: 'text' must not be empty"));
        }
        Ok(
            ToolStep::Ask {
                request: ToolRequest::File(ctx.memory.append_log(today, text.as_str())),
                followup: Followup::Confirm {
                    done: String::from_str("Note appended."),
                    failure: None,
                },
            },
        )
    }
}

} // verus!
