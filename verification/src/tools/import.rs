//! Importing a day's log from the daily-ops repository in the user's home
//! directory.

use vstd::prelude::*;
use vstd::string::StringExecFns;
use crate::text::{chars_of, find_char, first_index_of, join_path, joined, string_of};
use crate::tools::args::{text_member, ArgModel, ToolArgs};
use crate::tools::{
    done, ok, outcome, Followup, Sequel, Step, ToolContext, ToolError, ToolFault, ToolRequest,
    ToolStep, Work,
};
use crate::memory::{FileOp, FileRequest};

verus! {

pub const IMPORT_DAILYOPS: &'static str = "import_dailyops";

pub const IMPORT_DAILYOPS_ABOUT: &'static str =
    "Import a log file from ~/kondo-daily-ops/logs/ into 1koro's daily logs. Provide the date (YYYY-MM-DD) or a relative path.";

pub const IMPORT_DAILYOPS_SCHEMA: &'static str =
    "{\"type\":\"object\",\"properties\":{\"date\":{\"type\":\"string\",\"description\":\"Date in YYYY-MM-DD format to import\"}},\"required\":[\"date\"]}";

/// Where the repository keeps its logs, below the home directory.
pub const DAILYOPS_LOGS: &'static str = "kondo-daily-ops/logs";

/// The three parts of a date, if it has three: what stands before its
/// first dash, between its two dashes, and behind its second, which is its
/// last.
pub open spec fn date_parts(date: Seq<char>) -> Option<(Seq<char>, Seq<char>, Seq<char>)> {
    let i = first_index_of(date, '-');
    let rest = date.skip(i + 1);
    let j = first_index_of(rest, '-');
    let last = rest.skip(j + 1);
    if i < date.len() && j < rest.len() && first_index_of(last, '-') == last.len() {
        Some((date.take(i), rest.take(j), last))
    } else {
        None
    }
}

/// The date that the call asks for, or nothing where it names none.
pub open spec fn asked_date(args: Seq<(Seq<char>, ArgModel)>) -> Seq<char> {
    match text_member(args, "date"@) {
        Some(d) => d,
        None => Seq::empty(),
    }
}

/// What an import comes to: the log is looked for in the repository below
/// `home`, and goes into the daily logs below `base`.
pub open spec fn import_step(
    args: Seq<(Seq<char>, ArgModel)>,
    base: Seq<char>,
    home: Seq<char>,
) -> Result<Step, ToolFault> {
    let date = asked_date(args);
    if date.len() == 0 {
        done("Error: date is required"@)
    } else {
        match date_parts(date) {
            None => done("Error: date must be YYYY-MM-DD format"@),
            Some((year, month, day)) => {
                let folder = joined(joined(joined(home, DAILYOPS_LOGS@), year), month);
                let file = joined(folder, day + ".md"@);
                Ok(
                    Step::Ask {
                        request: Work::File(FileOp::Read { path: file }),
                        followup: Sequel::ImportSource {
                            date,
                            file,
                            dir: joined(folder, day),
                            target: joined(base, "logs/daily/"@ + date + ".md"@),
                        },
                    },
                )
            },
        }
    }
}

fn split_date(date: &str) -> (r: Option<(String, String, String)>)
    ensures
        match r {
            Some(parts) => date_parts(date@) == Some((parts.0@, parts.1@, parts.2@)),
            None => date_parts(date@) is None,
        },
{
    let d = chars_of(date);
    let i = match find_char(&d, '-') {
        Some(i) => i,
        None => {
            return None;
        },
    };
    let rest_text = string_of(&d, i + 1, d.len());
    assert(rest_text@ =~= date@.skip(i + 1));
    let rest = chars_of(rest_text.as_str());
    let j = match find_char(&rest, '-') {
        Some(j) => j,
        None => {
            return None;
        },
    };
    let last_text = string_of(&rest, j + 1, rest.len());
    assert(last_text@ =~= rest@.skip(j + 1));
    let last = chars_of(last_text.as_str());
    match find_char(&last, '-') {
        Some(_) => None,
        None => {
            let year = string_of(&d, 0, i);
            let month = string_of(&rest, 0, j);
            assert(year@ =~= date@.take(i as int));
            assert(month@ =~= rest@.take(j as int));
            Some((year, month, last_text))
        },
    }
}

/// Imports the log of a day from the daily-ops repository.
pub struct ImportDailyOpsTool;

impl ImportDailyOpsTool {
    pub fn name(&self) -> (n: &'static str)
        ensures
            n@ == IMPORT_DAILYOPS@,
    {
        IMPORT_DAILYOPS
    }

    pub fn description(&self) -> (d: &'static str)
        ensures
            d@ == IMPORT_DAILYOPS_ABOUT@,
    {
        IMPORT_DAILYOPS_ABOUT
    }

    pub fn parameters(&self) -> (p: &'static str)
        ensures
            p@ == IMPORT_DAILYOPS_SCHEMA@,
    {
        IMPORT_DAILYOPS_SCHEMA
    }

    /// `home` is the user's home directory; it is empty where the system
    /// knows of none.
    pub fn execute(&self, args: &ToolArgs, ctx: &ToolContext, home: &str) -> (r: Result<
        ToolStep,
        ToolError,
    >)
        ensures
            outcome(r) == import_step(args@, ctx.base_dir@, home@),
    {
        let date = match args.get_str("date") {
            Some(d) => d.clone(),
            None => String::new(),
        };
        if date.as_str().is_empty() {
            return ok(String::from_str("Error: date is required"));
        }
        let (year, month, day) = match split_date(date.as_str()) {
            Some(parts) => parts,
            None => {
                return ok(String::from_str("Error: date must be YYYY-MM-DD format"));
            },
        };
        let logs = join_path(home, DAILYOPS_LOGS);
        let of_year = join_path(logs.as_str(), year.as_str());
        let folder = join_path(of_year.as_str(), month.as_str());
        let mut file_name = day.clone();
        file_name.append(".md");
        let file = join_path(folder.as_str(), file_name.as_str());
        let dir = join_path(folder.as_str(), day.as_str());
        let mut rel = String::from_str("logs/daily/");
        rel.append(date.as_str());
        rel.append(".md");
        let target = join_path(ctx.base_dir.as_str(), rel.as_str());
        Ok(
            ToolStep::Ask {
                request: ToolRequest::File(FileRequest::Read { path: file.clone() }),
                followup: Followup::ImportSource { date, file, dir, target },
            },
        )
    }
}

} // verus!
