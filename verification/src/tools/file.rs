//! Reading a file below the memory directory.

use vstd::prelude::*;
use crate::text::{join_path, joined};
use crate::tools::args::{text_member, ArgModel, ToolArgs};
use crate::tools::{
    missing, outcome, require_str, Followup, Sequel, Step, ToolContext, ToolError, ToolFault,
    ToolRequest, ToolStep, Work,
};

verus! {

pub const READ_FILE: &'static str = "read_file";

pub const READ_FILE_ABOUT: &'static str =
    "Read file contents within the memory directory (~/.1koro)";

pub const READ_FILE_SCHEMA: &'static str =
    "{\"type\":\"object\",\"properties\":{\"path\":{\"type\":\"string\",\"description\":\"File path relative to memory directory (~/.1koro)\"}},\"required\":[\"path\"]}";

/// What reading a file comes to: the path is taken below `base` unless it
/// starts at the root, and resolved before anything is read.
pub open spec fn read_file_step(args: Seq<(Seq<char>, ArgModel)>, base: Seq<char>) -> Result<
    Step,
    ToolFault,
> {
    match text_member(args, "path"@) {
        None => missing("path"@),
        Some(path) => Ok(
            Step::Ask {
                request: Work::Resolve { path: joined(base, path), base },
                followup: Sequel::Sandbox { shown: joined(base, path) },
            },
        ),
    }
}

/// Reads a file, provided that it lies within the memory directory.
pub struct ReadFileTool;

impl ReadFileTool {
    pub fn name(&self) -> (n: &'static str)
        ensures
            n@ == READ_FILE@,
    {
        READ_FILE
    }

    pub fn description(&self) -> (d: &'static str)
        ensures
            d@ == READ_FILE_ABOUT@,
    {
        READ_FILE_ABOUT
    }

    pub fn parameters(&self) -> (p: &'static str)
        ensures
            p@ == READ_FILE_SCHEMA@,
    {
        READ_FILE_SCHEMA
    }

    pub fn execute(&self, args: &ToolArgs, ctx: &ToolContext) -> (r: Result<ToolStep, ToolError>)
        ensures
            outcome(r) == read_file_step(args@, ctx.base_dir@),
    {
        let path = require_str(args, "path")?;
        let full = join_path(ctx.base_dir.as_str(), path.as_str());
        Ok(
            ToolStep::Ask {
                request: ToolRequest::Resolve { path: full.clone(), base: ctx.base_dir.clone() },
                followup: Followup::Sandbox { shown: full },
            },
        )
    }
}

} // verus!
