//! Running a shell command.

use vstd::prelude::*;
use crate::tools::args::{text_member, ArgModel, ToolArgs};
use crate::tools::{
    missing, outcome, require_str, Followup, Sequel, Step, ToolContext, ToolError, ToolFault,
    ToolRequest, ToolStep, Work,
};

verus! {

pub const SHELL: &'static str = "shell";

pub const SHELL_ABOUT: &'static str = "Execute a shell command (runs in memory directory)";

pub const SHELL_SCHEMA: &'static str =
    "{\"type\":\"object\",\"properties\":{\"command\":{\"type\":\"string\",\"description\":\"Shell command to execute\"}},\"required\":[\"command\"]}";

/// What running a command comes to.
pub open spec fn shell_step(
    args: Seq<(Seq<char>, ArgModel)>,
    base: Seq<char>,
    timeout_secs: u64,
) -> Result<Step, ToolFault> {
    match text_member(args, "command"@) {
        None => missing("command"@),
        Some(command) => Ok(
            Step::Ask {
                request: Work::Shell { command, dir: base, timeout_secs },
                followup: Sequel::Shell { timeout_secs },
            },
        ),
    }
}

/// Runs shell commands in the memory directory, each for a limited time.
pub struct ShellTool {
    timeout_secs: u64,
}

impl ShellTool {
    pub closed spec fn timeout(&self) -> u64 {
        self.timeout_secs
    }

    pub fn new(timeout_secs: u64) -> (t: Self)
        ensures
            t.timeout() == timeout_secs,
    {
        ShellTool { timeout_secs }
    }

    pub fn name(&self) -> (n: &'static str)
        ensures
            n@ == SHELL@,
    {
        SHELL
    }

    pub fn description(&self) -> (d: &'static str)
        ensures
            d@ == SHELL_ABOUT@,
    {
        SHELL_ABOUT
    }

    pub fn parameters(&self) -> (p: &'static str)
        ensures
            p@ == SHELL_SCHEMA@,
    {
        SHELL_SCHEMA
    }

    pub fn execute(&self, args: &ToolArgs, ctx: &ToolContext) -> (r: Result<ToolStep, ToolError>)
        ensures
            outcome(r) == shell_step(args@, ctx.base_dir@, self.timeout()),
    {
        let command = require_str(args, "command")?;
        Ok(
            ToolStep::Ask {
                request: ToolRequest::Shell {
                    command: command.clone(),
                    dir: ctx.base_dir.clone(),
                    timeout_secs: self.timeout_secs,
                },
                followup: Followup::Shell { timeout_secs: self.timeout_secs },
            },
        )
    }
}

} // verus!
