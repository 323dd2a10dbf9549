//! The closed set of tools.

use vstd::prelude::*;
use vstd::string::StringExecFns;
use crate::llm::{FunctionDef, FunctionModel};
use crate::tools::args::{ArgModel, ToolArgs};
use crate::tools::file::{
    read_file_step, ReadFileTool, READ_FILE, READ_FILE_ABOUT, READ_FILE_SCHEMA,
};
use crate::tools::memory::{
    append_note_step, read_core_step, read_daily_log_step, search_logs_step, update_core_step,
    write_summary_step, AppendLogTool, ReadCoreMemoryTool, ReadDailyLogTool, SearchLogsTool,
    UpdateCoreMemoryTool, WriteSummaryTool, APPEND_NOTE, APPEND_NOTE_ABOUT, APPEND_NOTE_SCHEMA,
    READ_CORE_MEMORY, READ_CORE_MEMORY_ABOUT, READ_CORE_MEMORY_SCHEMA, READ_DAILY_LOG,
    READ_DAILY_LOG_ABOUT, READ_DAILY_LOG_SCHEMA, SEARCH_LOGS, SEARCH_LOGS_ABOUT, SEARCH_LOGS_SCHEMA,
    UPDATE_CORE_MEMORY, UPDATE_CORE_MEMORY_ABOUT, UPDATE_CORE_MEMORY_SCHEMA, WRITE_SUMMARY,
    WRITE_SUMMARY_ABOUT, WRITE_SUMMARY_SCHEMA,
};
use crate::tools::shell::{shell_step, ShellTool, SHELL, SHELL_ABOUT, SHELL_SCHEMA};
use crate::tools::{outcome, Step, ToolContext, ToolError, ToolFault, ToolStep};

verus! {

/// The tools, a closed set.
#[derive(Debug, Clone, Copy, PartialEq, Eq, Structural)]
pub enum ToolKind {
    SearchLogs,
    ReadCoreMemory,
    UpdateCoreMemory,
    ReadDailyLog,
    WriteSummary,
    AppendLog,
    ReadFile,
    /// Runs a shell command, for at most the given number of seconds.
    Shell(u64),
}

impl ToolKind {
    /// The name under which the model calls the tool.
    pub open spec fn name_text(self) -> Seq<char> {
        match self {
            ToolKind::SearchLogs => SEARCH_LOGS@,
            ToolKind::ReadCoreMemory => READ_CORE_MEMORY@,
            ToolKind::UpdateCoreMemory => UPDATE_CORE_MEMORY@,
            ToolKind::ReadDailyLog => READ_DAILY_LOG@,
            ToolKind::WriteSummary => WRITE_SUMMARY@,
            ToolKind::AppendLog => APPEND_NOTE@,
            ToolKind::ReadFile => READ_FILE@,
            ToolKind::Shell(_) => SHELL@,
        }
    }

    /// What the model is told of the tool.
    pub open spec fn definition_model(self) -> FunctionModel {
        match self {
            ToolKind::SearchLogs => FunctionModel {
                name: SEARCH_LOGS@,
                description: SEARCH_LOGS_ABOUT@,
                parameters: SEARCH_LOGS_SCHEMA@,
            },
            ToolKind::ReadCoreMemory => FunctionModel {
                name: READ_CORE_MEMORY@,
                description: READ_CORE_MEMORY_ABOUT@,
                parameters: READ_CORE_MEMORY_SCHEMA@,
            },
            ToolKind::UpdateCoreMemory => FunctionModel {
                name: UPDATE_CORE_MEMORY@,
                description: UPDATE_CORE_MEMORY_ABOUT@,
                parameters: UPDATE_CORE_MEMORY_SCHEMA@,
            },
            ToolKind::ReadDailyLog => FunctionModel {
                name: READ_DAILY_LOG@,
                description: READ_DAILY_LOG_ABOUT@,
                parameters: READ_DAILY_LOG_SCHEMA@,
            },
            ToolKind::WriteSummary => FunctionModel {
                name: WRITE_SUMMARY@,
                description: WRITE_SUMMARY_ABOUT@,
                parameters: WRITE_SUMMARY_SCHEMA@,
            },
            ToolKind::AppendLog => FunctionModel {
                name: APPEND_NOTE@,
                description: APPEND_NOTE_ABOUT@,
                parameters: APPEND_NOTE_SCHEMA@,
            },
            ToolKind::ReadFile => FunctionModel {
                name: READ_FILE@,
                description: READ_FILE_ABOUT@,
                parameters: READ_FILE_SCHEMA@,
            },
            ToolKind::Shell(_) => FunctionModel {
                name: SHELL@,
                description: SHELL_ABOUT@,
                parameters: SHELL_SCHEMA@,
            },
        }
    }

    /// Whether `self` and `other` are the same tool, whatever their limits.
    pub open spec fn same_tool(self, other: ToolKind) -> bool {
        match (self, other) {
            (ToolKind::Shell(_), ToolKind::Shell(_)) => true,
            _ => self == other,
        }
    }

    /// What a call of the tool comes to. `store` is where the memory store
    /// lives, `base` the directory that file tools are confined to, and
    /// `today` the day under which notes are filed.
    pub open spec fn step(
        self,
        args: Seq<(Seq<char>, ArgModel)>,
        store: Seq<char>,
        base: Seq<char>,
        today: Seq<char>,
    ) -> Result<Step, ToolFault> {
        match self {
            ToolKind::SearchLogs => search_logs_step(args, store),
            ToolKind::ReadCoreMemory => read_core_step(args, store),
            ToolKind::UpdateCoreMemory => update_core_step(args, store),
            ToolKind::ReadDailyLog => read_daily_log_step(args, store),
            ToolKind::WriteSummary => write_summary_step(args, store),
            ToolKind::AppendLog => append_note_step(args, store, today),
            ToolKind::ReadFile => read_file_step(args, base),
            ToolKind::Shell(timeout_secs) => shell_step(args, base, timeout_secs),
        }
    }

    pub fn name(&self) -> (n: &'static str)
        ensures
            n@ == self.name_text(),
    {
        match self {
            ToolKind::SearchLogs => SearchLogsTool.name(),
            ToolKind::ReadCoreMemory => ReadCoreMemoryTool.name(),
            ToolKind::UpdateCoreMemory => UpdateCoreMemoryTool.name(),
            ToolKind::ReadDailyLog => ReadDailyLogTool.name(),
            ToolKind::WriteSummary => WriteSummaryTool.name(),
            ToolKind::AppendLog => AppendLogTool.name(),
            ToolKind::ReadFile => ReadFileTool.name(),
            ToolKind::Shell(t) => ShellTool::new(*t).name(),
        }
    }

    /// The tool's name, what it does, and the JSON schema of its arguments.
    pub fn definition(&self) -> (d: FunctionDef)
        ensures
            d@ == self.definition_model(),
            d@.name == self.name_text(),
    {
        let (name, description, parameters) = match self {
            ToolKind::SearchLogs => (
                SearchLogsTool.name(),
                SearchLogsTool.description(),
                SearchLogsTool.parameters(),
            ),
            ToolKind::ReadCoreMemory => (
                ReadCoreMemoryTool.name(),
                ReadCoreMemoryTool.description(),
                ReadCoreMemoryTool.parameters(),
            ),
            ToolKind::UpdateCoreMemory => (
                UpdateCoreMemoryTool.name(),
                UpdateCoreMemoryTool.description(),
                UpdateCoreMemoryTool.parameters(),
            ),
            ToolKind::ReadDailyLog => (
                ReadDailyLogTool.name(),
                ReadDailyLogTool.description(),
                ReadDailyLogTool.parameters(),
            ),
            ToolKind::WriteSummary => (
                WriteSummaryTool.name(),
                WriteSummaryTool.description(),
                WriteSummaryTool.parameters(),
            ),
            ToolKind::AppendLog => (
                AppendLogTool.name(),
                AppendLogTool.description(),
                AppendLogTool.parameters(),
            ),
            ToolKind::ReadFile => (
                ReadFileTool.name(),
                ReadFileTool.description(),
                ReadFileTool.parameters(),
            ),
            ToolKind::Shell(t) => {
                let tool = ShellTool::new(*t);
                (tool.name(), tool.description(), tool.parameters())
            },
        };
        FunctionDef {
            name: String::from_str(name),
            description: String::from_str(description),
            parameters: String::from_str(parameters),
        }
    }

    /// Runs the tool on the arguments of a call, as far as it goes without
    /// outside work.
    pub fn execute(&self, args: &ToolArgs, ctx: &ToolContext, today: &str) -> (r: Result<
        ToolStep,
        ToolError,
    >)
        ensures
            outcome(r) == self.step(args@, ctx.memory.base(), ctx.base_dir@, today@),
    {
        match self {
            ToolKind::SearchLogs => SearchLogsTool.execute(args, ctx),
            ToolKind::ReadCoreMemory => ReadCoreMemoryTool.execute(args, ctx),
            ToolKind::UpdateCoreMemory => UpdateCoreMemoryTool.execute(args, ctx),
            ToolKind::ReadDailyLog => ReadDailyLogTool.execute(args, ctx),
            ToolKind::WriteSummary => WriteSummaryTool.execute(args, ctx),
            ToolKind::AppendLog => AppendLogTool.execute(args, ctx, today),
            ToolKind::ReadFile => ReadFileTool.execute(args, ctx),
            ToolKind::Shell(t) => ShellTool::new(*t).execute(args, ctx),
        }
    }
}

/// No two tools share a name.
pub proof fn names_are_unique(a: ToolKind, b: ToolKind)
    ensures
        a.name_text() == b.name_text() <==> a.same_tool(b),
{
    reveal_strlit("search_logs");
    reveal_strlit("read_core_memory");
    reveal_strlit("update_core_memory");
    reveal_strlit("read_daily_log");
    reveal_strlit("write_summary");
    reveal_strlit("append_note");
    reveal_strlit("read_file");
    reveal_strlit("shell");
    if a.name_text() == b.name_text() {
        assert(a.name_text().len() == b.name_text().len());
        assert(a.name_text()[0] == b.name_text()[0]);
        assert(a.name_text()[5] == b.name_text()[5]);
    }
}

} // verus!
