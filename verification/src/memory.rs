//! The flat-file memory store, without the files: which names and dates are
//! accepted, where each record lives, and what is written to it. The caller
//! performs the file operations that these functions describe.

use vstd::prelude::*;
use vstd::string::StringExecFns;
use crate::config::MemoryConfig;
use crate::text::{
    all_digits, chars_of, comes_before, concat, concat3, contains, contains_text, decimal,
    digits_in, join_path, joined, lines_of, lowercase, pad2, pad4, precedes, push_decimal,
    push_pad2, push_pad4, same_text, split_lines, to_lower, two_digit_number, two_digits,
};

verus! {

/// The ways in which the store refuses a name, a date or a period id.
#[derive(Debug, Clone, Copy, PartialEq, Eq, Structural)]
pub enum MemoryFault {
    /// Not one of the core memory files.
    InvalidCoreFile,
    /// A core memory file that may be read but not written.
    ReadOnlyCoreFile,
    /// Not of the form `YYYY-MM-DD`.
    InvalidDateFormat,
    /// Month or day out of range.
    InvalidDateValue,
    /// Not of the form `YYYY-Wnn`.
    InvalidWeekFormat,
    /// Week number out of range.
    InvalidWeekNumber,
    /// Not of the form `YYYY-MM`.
    InvalidMonthFormat,
    /// Month number out of range.
    InvalidMonthNumber,
}

impl MemoryFault {
    /// What precedes the refused text in the message.
    pub open spec fn prefix(self) -> Seq<char> {
        match self {
            MemoryFault::InvalidCoreFile => "Invalid core memory file: "@,
            MemoryFault::ReadOnlyCoreFile => "Cannot write to core memory file: "@,
            MemoryFault::InvalidDateFormat => "Invalid date format (expected YYYY-MM-DD): "@,
            MemoryFault::InvalidDateValue => "Invalid date value: "@,
            MemoryFault::InvalidWeekFormat => "Invalid week id (expected YYYY-Wnn): "@,
            MemoryFault::InvalidWeekNumber => "Invalid week number: "@,
            MemoryFault::InvalidMonthFormat => "Invalid month id (expected YYYY-MM): "@,
            MemoryFault::InvalidMonthNumber => "Invalid month number: "@,
        }
    }
}

/// A refusal of the store: the fault and the text that was refused.
#[derive(Debug)]
pub struct MemoryError {
    pub fault: MemoryFault,
    pub subject: String,
}

impl View for MemoryError {
    type V = (MemoryFault, Seq<char>);

    open spec fn view(&self) -> (MemoryFault, Seq<char>) {
        (self.fault, self.subject@)
    }
}

/// The message shown for the refusal of `subject` for `fault`.
pub open spec fn fault_message(e: (MemoryFault, Seq<char>)) -> Seq<char> {
    e.0.prefix() + e.1
}

impl MemoryError {
    fn new(fault: MemoryFault, subject: &str) -> (e: MemoryError)
        ensures
            e@ == (fault, subject@),
    {
        MemoryError { fault, subject: String::from_str(subject) }
    }

    pub fn message(&self) -> (m: String)
        ensures
            m@ == fault_message(self@),
    {
        let prefix = match self.fault {
            MemoryFault::InvalidCoreFile => "Invalid core memory file: ",
            MemoryFault::ReadOnlyCoreFile => "Cannot write to core memory file: ",
            MemoryFault::InvalidDateFormat => "Invalid date format (expected YYYY-MM-DD): ",
            MemoryFault::InvalidDateValue => "Invalid date value: ",
            MemoryFault::InvalidWeekFormat => "Invalid week id (expected YYYY-Wnn): ",
            MemoryFault::InvalidWeekNumber => "Invalid week number: ",
            MemoryFault::InvalidMonthFormat => "Invalid month id (expected YYYY-MM): ",
            MemoryFault::InvalidMonthNumber => "Invalid month number: ",
        };
        concat(prefix, self.subject.as_str())
    }
}

/// The core memory files that may be read.
pub open spec fn is_core_file(name: Seq<char>) -> bool {
    name == "identity.md"@ || name == "user.md"@ || name == "state.md"@
}

/// The core memory files that may be written.
pub open spec fn is_writable_core_file(name: Seq<char>) -> bool {
    name == "user.md"@ || name == "state.md"@
}

/// `YYYY-MM-DD`, digits and dashes only.
pub open spec fn date_shape(s: Seq<char>) -> bool {
    &&& s.len() == 10
    &&& s[4] == '-'
    &&& s[7] == '-'
    &&& all_digits(s, 0, 4)
    &&& all_digits(s, 5, 7)
    &&& all_digits(s, 8, 10)
}

/// Month 1 to 12 and day 1 to 31, for a text of the shape of a date.
pub open spec fn date_in_range(s: Seq<char>) -> bool {
    1 <= two_digits(s, 5) <= 12 && 1 <= two_digits(s, 8) <= 31
}

/// `YYYY-Wnn`.
pub open spec fn week_shape(s: Seq<char>) -> bool {
    &&& s.len() == 8
    &&& s[4] == '-'
    &&& s[5] == 'W'
    &&& all_digits(s, 0, 4)
    &&& all_digits(s, 6, 8)
}

/// Week 1 to 53, for a text of the shape of a week id.
pub open spec fn week_in_range(s: Seq<char>) -> bool {
    1 <= two_digits(s, 6) <= 53
}

/// `YYYY-MM`.
pub open spec fn month_shape(s: Seq<char>) -> bool {
    &&& s.len() == 7
    &&& s[4] == '-'
    &&& all_digits(s, 0, 4)
    &&& all_digits(s, 5, 7)
}

/// Month 1 to 12, for a text of the shape of a month id.
pub open spec fn month_in_range(s: Seq<char>) -> bool {
    1 <= two_digits(s, 5) <= 12
}

/// A file operation that the store asks of its caller.
#[derive(Debug)]
pub enum FileRequest {
    /// Read the whole file as text. The file may be absent.
    Read { path: String },
    /// Replace the file's content, after creating its parent directories
    /// where `make_parent` is set.
    Write { path: String, content: String, make_parent: bool },
    /// Create the parent directories and open the file for appending; write
    /// `header` first if the file is empty, then `line`.
    Append { path: String, header: String, line: String },
}

/// What came of a file operation.
#[derive(Debug)]
pub enum FileReply {
    /// The content that was read.
    Text(String),
    /// There is no such file.
    Missing,
    /// The write went through.
    Done,
    /// The operation failed, for the reason given.
    Failed(String),
}

/// A file operation, as the contracts speak of it.
pub enum FileOp {
    Read { path: Seq<char> },
    Write { path: Seq<char>, content: Seq<char>, make_parent: bool },
    Append { path: Seq<char>, header: Seq<char>, line: Seq<char> },
}

impl View for FileRequest {
    type V = FileOp;

    open spec fn view(&self) -> FileOp {
        match self {
            FileRequest::Read { path } => FileOp::Read { path: path@ },
            FileRequest::Write { path, content, make_parent } => FileOp::Write {
                path: path@,
                content: content@,
                make_parent: *make_parent,
            },
            FileRequest::Append { path, header, line } => FileOp::Append {
                path: path@,
                header: header@,
                line: line@,
            },
        }
    }
}

/// What came of a file operation, as the contracts speak of it.
pub enum FileResult {
    Text(Seq<char>),
    Missing,
    Done,
    Failed(Seq<char>),
}

impl View for FileReply {
    type V = FileResult;

    open spec fn view(&self) -> FileResult {
        match self {
            FileReply::Text(t) => FileResult::Text(t@),
            FileReply::Missing => FileResult::Missing,
            FileReply::Done => FileResult::Done,
            FileReply::Failed(e) => FileResult::Failed(e@),
        }
    }
}

/// Why `name` may not be read as a core memory file, if it may not.
pub open spec fn core_read_fault(name: Seq<char>) -> Option<MemoryFault> {
    if is_core_file(name) {
        None
    } else {
        Some(MemoryFault::InvalidCoreFile)
    }
}

/// Why `name` may not be written as a core memory file, if it may not.
pub open spec fn core_write_fault(name: Seq<char>) -> Option<MemoryFault> {
    if is_writable_core_file(name) {
        None
    } else {
        Some(MemoryFault::ReadOnlyCoreFile)
    }
}

/// Why `s` is no date, if it is none.
pub open spec fn date_fault(s: Seq<char>) -> Option<MemoryFault> {
    if !date_shape(s) {
        Some(MemoryFault::InvalidDateFormat)
    } else if !date_in_range(s) {
        Some(MemoryFault::InvalidDateValue)
    } else {
        None
    }
}

/// Why `s` is no week id, if it is none.
pub open spec fn week_fault(s: Seq<char>) -> Option<MemoryFault> {
    if !week_shape(s) {
        Some(MemoryFault::InvalidWeekFormat)
    } else if !week_in_range(s) {
        Some(MemoryFault::InvalidWeekNumber)
    } else {
        None
    }
}

/// Why `s` is no month id, if it is none.
pub open spec fn month_fault(s: Seq<char>) -> Option<MemoryFault> {
    if !month_shape(s) {
        Some(MemoryFault::InvalidMonthFormat)
    } else if !month_in_range(s) {
        Some(MemoryFault::InvalidMonthNumber)
    } else {
        None
    }
}

/// What a check of `subject` returns when `fault` is what it found.
pub open spec fn checked(fault: Option<MemoryFault>, subject: Seq<char>, r: Result<
    (),
    MemoryError,
>) -> bool {
    match r {
        Ok(()) => fault is None,
        Err(e) => fault == Some(e.fault) && e.subject@ == subject,
    }
}

/// What a request for a file operation returns: the operation, unless
/// `fault` is what the check of `subject` found.
pub open spec fn planned(
    fault: Option<MemoryFault>,
    subject: Seq<char>,
    op: FileOp,
    r: Result<FileRequest, MemoryError>,
) -> bool {
    match r {
        Ok(req) => fault is None && req@ == op,
        Err(e) => fault == Some(e.fault) && e.subject@ == subject,
    }
}

/// One daily log: the day it is named after and what it holds.
#[derive(Debug)]
pub struct DailyLog {
    pub date: String,
    pub content: String,
}

impl View for DailyLog {
    type V = (Seq<char>, Seq<char>);

    open spec fn view(&self) -> (Seq<char>, Seq<char>) {
        (self.date@, self.content@)
    }
}

/// The logs in `v`, each as its day and its content.
pub open spec fn logs_model(v: Seq<DailyLog>) -> Seq<(Seq<char>, Seq<char>)> {
    Seq::new(v.len(), |i: int| v[i]@)
}

/// How a line found in the log of `date` is reported.
pub open spec fn hit(date: Seq<char>, line: Seq<char>) -> Seq<char> {
    "["@ + date + "] "@ + line
}

/// Whether `line` holds `needle`, whatever the case of `line`'s letters.
pub open spec fn is_hit(line: Seq<char>, needle: Seq<char>) -> bool {
    contains_text(lowercase(line), needle)
}

/// The hits among the first `n` of `lines`, in order.
pub open spec fn hits_in(date: Seq<char>, lines: Seq<Seq<char>>, needle: Seq<char>, n: int) -> Seq<
    Seq<char>,
>
    decreases n,
{
    if n <= 0 {
        Seq::empty()
    } else if is_hit(lines[n - 1], needle) {
        hits_in(date, lines, needle, n - 1).push(hit(date, lines[n - 1]))
    } else {
        hits_in(date, lines, needle, n - 1)
    }
}

/// The hits in the first `n` of `logs`, log after log and line after line.
pub open spec fn hits(logs: Seq<(Seq<char>, Seq<char>)>, needle: Seq<char>, n: int) -> Seq<
    Seq<char>,
>
    decreases n,
{
    if n <= 0 {
        Seq::empty()
    } else {
        let lines = split_lines(logs[n - 1].1);
        hits(logs, needle, n - 1) + hits_in(logs[n - 1].0, lines, needle, lines.len() as int)
    }
}

/// What a search for `query` reports: the first `limit` of the lines that
/// hold it, without regard to case, each with the day of its log in front.
pub open spec fn search_result(logs: Seq<(Seq<char>, Seq<char>)>, query: Seq<char>, limit: int) -> Seq<
    Seq<char>,
> {
    let all = hits(logs, lowercase(query), logs.len() as int);
    if all.len() <= limit {
        all
    } else {
        all.take(limit)
    }
}

/// The week of the year, as ISO 8601 counts weeks, in which the given day
/// of the calendar lies; none where there is no such day.
pub uninterp spec fn iso_week_number(year: i32, month: u32, day: u32) -> Option<u32>;

/// `chrono::NaiveDate::from_ymd_opt`, and of the date it gives
/// `Datelike::iso_week` and `IsoWeek::week`: the ISO week of a day.
#[verifier::external_body]
fn iso_week(year: i32, month: u32, day: u32) -> (w: Option<u32>)
    ensures
        w == iso_week_number(year, month, day),
{
    chrono::NaiveDate::from_ymd_opt(year, month, day).map(|d| chrono::Datelike::iso_week(&d).week())
}

/// The ids under which the summaries of a month and of a week are kept.
#[derive(Debug)]
pub struct PeriodIds {
    pub month: String,
    pub week: String,
}

/// The id of the month `month` of `year`.
pub open spec fn month_id(year: nat, month: nat) -> Seq<char> {
    pad4(year) + "-"@ + pad2(month)
}

/// The id of the week `week` of `year`.
pub open spec fn week_id(year: nat, week: nat) -> Seq<char> {
    decimal(year) + "-W"@ + pad2(week)
}

/// The ids of the month and of the week for a day in the month `month` of
/// `year` that lies in the week `week`. Years that four digits do not
/// write have none.
pub fn period_ids_for(year: i32, month: u32, week: u32) -> (r: Option<PeriodIds>)
    ensures
        match r {
            Some(ids) => 0 <= year <= 9999 && ids.month@ == month_id(year as nat, month as nat)
                && ids.week@ == week_id(year as nat, week as nat),
            None => !(0 <= year <= 9999),
        },
{
    if year < 0 || year > 9999 {
        return None;
    }
    let y: u64 = year as u64;
    let mut month_text = String::new();
    push_pad4(&mut month_text, y);
    month_text.append("-");
    push_pad2(&mut month_text, month as u64);
    let mut week_text = String::new();
    push_decimal(&mut week_text, y);
    week_text.append("-W");
    push_pad2(&mut week_text, week as u64);
    assert(month_text@ =~= month_id(year as nat, month as nat));
    assert(week_text@ =~= week_id(year as nat, week as nat));
    Some(PeriodIds { month: month_text, week: week_text })
}

/// The ids of the month and of the week in which the given day lies.
pub fn period_ids(year: i32, month: u32, day: u32) -> (r: Option<PeriodIds>)
    ensures
        match r {
            Some(ids) => {
                &&& 0 <= year <= 9999
                &&& iso_week_number(year, month, day) matches Some(week)
                &&& ids.month@ == month_id(year as nat, month as nat)
                &&& ids.week@ == week_id(year as nat, week as nat)
            },
            None => !(0 <= year <= 9999) || iso_week_number(year, month, day) is None,
        },
{
    match iso_week(year, month, day) {
        Some(week) => period_ids_for(year, month, week),
        None => None,
    }
}

/// Whether the day `date` lies between `start` and `end`, both included,
/// in the order of their texts.
pub open spec fn in_days(date: Seq<char>, start: Seq<char>, end: Seq<char>) -> bool {
    !precedes(date, start) && !precedes(end, date)
}

/// Those of the first `n` of `logs` whose day lies between `start` and
/// `end`, in their order.
pub open spec fn logs_between(
    logs: Seq<(Seq<char>, Seq<char>)>,
    start: Seq<char>,
    end: Seq<char>,
    n: int,
) -> Seq<(Seq<char>, Seq<char>)>
    decreases n,
{
    if n <= 0 {
        Seq::empty()
    } else if in_days(logs[n - 1].0, start, end) {
        logs_between(logs, start, end, n - 1).push(logs[n - 1])
    } else {
        logs_between(logs, start, end, n - 1)
    }
}

/// Where the core memory file `filename` lives below `base`.
pub open spec fn core_path(base: Seq<char>, filename: Seq<char>) -> Seq<char> {
    joined(joined(base, "core"@), filename)
}

/// Where the record `id` of the log series `series` (`daily`, `weekly` or
/// `monthly`) lives below `base`.
pub open spec fn record_path(base: Seq<char>, series: Seq<char>, id: Seq<char>) -> Seq<char> {
    joined(base, "logs/"@ + series + "/"@ + id + ".md"@)
}

/// The three core memory texts, each separated from the next by a divider.
pub open spec fn core_context(identity: Seq<char>, user: Seq<char>, state: Seq<char>) -> Seq<
    char,
> {
    identity + "\n\n---\n\n"@ + user + "\n\n---\n\n"@ + state
}

pub struct MemoryManager {
    base_dir: String,
}

impl MemoryManager {
    pub closed spec fn base(&self) -> Seq<char> {
        self.base_dir@
    }

    pub fn new(config: &MemoryConfig) -> (m: Self)
        ensures
            m.base() == config.base_dir@,
    {
        MemoryManager { base_dir: config.base_dir.clone() }
    }

    pub fn base_dir(&self) -> (d: &String)
        ensures
            d@ == self.base(),
    {
        &self.base_dir
    }

    fn record(&self, series: &str, id: &str) -> (p: String)
        ensures
            p@ == record_path(self.base(), series@, id@),
    {
        let mut rel = String::from_str("logs/");
        rel.append(series);
        rel.append("/");
        rel.append(id);
        rel.append(".md");
        join_path(self.base_dir.as_str(), rel.as_str())
    }

    /// Where the core memory file `filename` lives.
    pub fn core_file(&self, filename: &str) -> (p: String)
        ensures
            p@ == core_path(self.base(), filename@),
    {
        let dir = join_path(self.base_dir.as_str(), "core");
        join_path(dir.as_str(), filename)
    }

    /// Asks for the content of a core memory file.
    pub fn read_core(&self, filename: &str) -> (r: Result<FileRequest, MemoryError>)
        ensures
            planned(
                core_read_fault(filename@),
                filename@,
                FileOp::Read { path: core_path(self.base(), filename@) },
                r,
            ),
    {
        match Self::validate_core_read(filename) {
            Ok(()) => Ok(FileRequest::Read { path: self.core_file(filename) }),
            Err(e) => Err(e),
        }
    }

    /// Asks to replace the content of a core memory file.
    pub fn write_core(&self, filename: &str, content: &str) -> (r: Result<
        FileRequest,
        MemoryError,
    >)
        ensures
            planned(
                core_write_fault(filename@),
                filename@,
                FileOp::Write {
                    path: core_path(self.base(), filename@),
                    content: content@,
                    make_parent: false,
                },
                r,
            ),
    {
        match Self::validate_core_write(filename) {
            Ok(()) => Ok(
                FileRequest::Write {
                    path: self.core_file(filename),
                    content: String::from_str(content),
                    make_parent: false,
                },
            ),
            Err(e) => Err(e),
        }
    }

    /// Asks to replace the current-state file.
    pub fn update_state(&self, content: &str) -> (req: FileRequest)
        ensures
            req@ == (FileOp::Write {
                path: core_path(self.base(), "state.md"@),
                content: content@,
                make_parent: false,
            }),
    {
        FileRequest::Write {
            path: self.core_file("state.md"),
            content: String::from_str(content),
            make_parent: false,
        }
    }

    /// The core memory block of the system prompt.
    pub fn build_core_context(identity: &str, user: &str, state: &str) -> (r: String)
        ensures
            r@ == core_context(identity@, user@, state@),
    {
        let mut r = String::from_str(identity);
        r.append("\n\n---\n\n");
        r.append(user);
        r.append("\n\n---\n\n");
        r.append(state);
        r
    }

    /// Where the daily log of `date` lives.
    pub fn log_path(&self, date: &str) -> (p: String)
        ensures
            p@ == record_path(self.base(), "daily"@, date@),
    {
        self.record("daily", date)
    }

    /// Asks to add `entry` to the log of the day `today`. A new log starts
    /// with the day as its heading.
    pub fn append_log(&self, today: &str, entry: &str) -> (req: FileRequest)
        ensures
            req@ == (FileOp::Append {
                path: record_path(self.base(), "daily"@, today@),
                header: "# "@ + today@ + "\n\n"@,
                line: "- "@ + entry@ + "\n"@,
            }),
    {
        FileRequest::Append {
            path: self.record("daily", today),
            header: concat3("# ", today, "\n\n"),
            line: concat3("- ", entry, "\n"),
        }
    }

    /// Asks for the daily log of `date`.
    pub fn read_daily_log(&self, date: &str) -> (r: Result<FileRequest, MemoryError>)
        ensures
            planned(
                date_fault(date@),
                date@,
                FileOp::Read { path: record_path(self.base(), "daily"@, date@) },
                r,
            ),
    {
        match Self::validate_date(date) {
            Ok(()) => Ok(FileRequest::Read { path: self.record("daily", date) }),
            Err(e) => Err(e),
        }
    }

    /// Asks for the summary of the week `week_id`.
    pub fn read_weekly_summary(&self, week_id: &str) -> (r: Result<FileRequest, MemoryError>)
        ensures
            planned(
                week_fault(week_id@),
                week_id@,
                FileOp::Read { path: record_path(self.base(), "weekly"@, week_id@) },
                r,
            ),
    {
        match Self::validate_week_id(week_id) {
            Ok(()) => Ok(FileRequest::Read { path: self.record("weekly", week_id) }),
            Err(e) => Err(e),
        }
    }

    /// Asks for the summary of the month `month_id`.
    pub fn read_monthly_summary(&self, month_id: &str) -> (r: Result<FileRequest, MemoryError>)
        ensures
            planned(
                month_fault(month_id@),
                month_id@,
                FileOp::Read { path: record_path(self.base(), "monthly"@, month_id@) },
                r,
            ),
    {
        match Self::validate_month_id(month_id) {
            Ok(()) => Ok(FileRequest::Read { path: self.record("monthly", month_id) }),
            Err(e) => Err(e),
        }
    }

    /// Asks to store the summary of the week `week_id`.
    pub fn write_weekly_summary(&self, week_id: &str, content: &str) -> (r: Result<
        FileRequest,
        MemoryError,
    >)
        ensures
            planned(
                week_fault(week_id@),
                week_id@,
                FileOp::Write {
                    path: record_path(self.base(), "weekly"@, week_id@),
                    content: content@,
                    make_parent: true,
                },
                r,
            ),
    {
        match Self::validate_week_id(week_id) {
            Ok(()) => Ok(
                FileRequest::Write {
                    path: self.record("weekly", week_id),
                    content: String::from_str(content),
                    make_parent: true,
                },
            ),
            Err(e) => Err(e),
        }
    }

    /// Asks to store the summary of the month `month_id`.
    pub fn write_monthly_summary(&self, month_id: &str, content: &str) -> (r: Result<
        FileRequest,
        MemoryError,
    >)
        ensures
            planned(
                month_fault(month_id@),
                month_id@,
                FileOp::Write {
                    path: record_path(self.base(), "monthly"@, month_id@),
                    content: content@,
                    make_parent: true,
                },
                r,
            ),
    {
        match Self::validate_month_id(month_id) {
            Ok(()) => Ok(
                FileRequest::Write {
                    path: self.record("monthly", month_id),
                    content: String::from_str(content),
                    make_parent: true,
                },
            ),
            Err(e) => Err(e),
        }
    }

    /// Where the daily logs live.
    pub fn logs_dir(&self) -> (p: String)
        ensures
            p@ == joined(self.base(), "logs/daily"@),
    {
        join_path(self.base_dir.as_str(), "logs/daily")
    }

    /// Searches the daily logs, given in the order of their file names, for
    /// the lines that hold `query`.
    pub fn search_logs(logs: &Vec<DailyLog>, query: &str, limit: usize) -> (found: Vec<String>)
        ensures
            found.deep_view() == search_result(logs_model(logs@), query@, limit as int),
    {
        let needle_text = to_lower(query);
        let needle = chars_of(needle_text.as_str());
        let mut found: Vec<String> = Vec::new();
        let mut k: usize = 0;
        assert(found.deep_view() =~= hits(logs_model(logs@), needle@, 0));
        while k < logs.len()
            invariant
                k <= logs@.len(),
                needle@ == lowercase(query@),
                found.deep_view() == hits(logs_model(logs@), needle@, k as int),
            decreases logs@.len() - k,
        {
            let log = &logs[k];
            let lines = lines_of(&chars_of(log.content.as_str()));
            let ghost before = found.deep_view();
            let mut j: usize = 0;
            assert(logs_model(logs@)[k as int] == log@);
            while j < lines.len()
                invariant
                    j <= lines@.len(),
                    lines.deep_view() == split_lines(log.content@),
                    found.deep_view() == before + hits_in(
                        log.date@,
                        lines.deep_view(),
                        needle@,
                        j as int,
                    ),
                decreases lines@.len() - j,
            {
                let line = &lines[j];
                let lower = to_lower(line.as_str());
                assert(lines.deep_view()[j as int] == line@);
                if contains(&chars_of(lower.as_str()), &needle) {
                    let mut entry = String::from_str("[");
                    entry.append(log.date.as_str());
                    entry.append("] ");
                    entry.append(line.as_str());
                    let ghost old_found = found.deep_view();
                    found.push(entry);
                    assert(found.deep_view() =~= old_found.push(hit(log.date@, line@)));
                }
                j += 1;
            }
            k += 1;
        }
        found.truncate(limit);
        assert(found.deep_view() =~= search_result(logs_model(logs@), query@, limit as int));
        found
    }

    /// The daily logs of the days from `start` to `end`, both included, out
    /// of `logs`, which come in the order of their file names.
    pub fn read_daily_logs_range(logs: &Vec<DailyLog>, start: &str, end: &str) -> (found: Vec<
        DailyLog,
    >)
        ensures
            logs_model(found@) == logs_between(logs_model(logs@), start@, end@, logs@.len() as int),
    {
        let first = chars_of(start);
        let last = chars_of(end);
        let mut found: Vec<DailyLog> = Vec::new();
        let mut n: usize = 0;
        assert(logs_model(found@) =~= logs_between(logs_model(logs@), start@, end@, 0));
        while n < logs.len()
            invariant
                n <= logs@.len(),
                first@ == start@,
                last@ == end@,
                logs_model(found@) == logs_between(logs_model(logs@), start@, end@, n as int),
            decreases logs@.len() - n,
        {
            let log = &logs[n];
            assert(logs_model(logs@)[n as int] == log@);
            let date = chars_of(log.date.as_str());
            if !comes_before(&date, &first) && !comes_before(&last, &date) {
                let ghost before = logs_model(found@);
                found.push(DailyLog { date: log.date.clone(), content: log.content.clone() });
                assert(logs_model(found@) =~= before.push(log@));
            }
            n += 1;
        }
        found
    }

    /// Asks for the file of periodic task instructions.
    pub fn read_heartbeat(&self) -> (req: FileRequest)
        ensures
            req@ == (FileOp::Read { path: joined(self.base(), "heartbeat.md"@) }),
    {
        FileRequest::Read { path: join_path(self.base_dir.as_str(), "heartbeat.md") }
    }

    /// Accepts exactly the three core memory files.
    pub fn validate_core_read(filename: &str) -> (r: Result<(), MemoryError>)
        ensures
            checked(core_read_fault(filename@), filename@, r),
    {
        if same_text(filename, "identity.md") || same_text(filename, "user.md") || same_text(
            filename,
            "state.md",
        ) {
            Ok(())
        } else {
            Err(MemoryError::new(MemoryFault::InvalidCoreFile, filename))
        }
    }

    /// Accepts the core memory files that the assistant may rewrite; the
    /// identity file is not among them.
    pub fn validate_core_write(filename: &str) -> (r: Result<(), MemoryError>)
        ensures
            checked(core_write_fault(filename@), filename@, r),
    {
        if same_text(filename, "user.md") || same_text(filename, "state.md") {
            Ok(())
        } else {
            Err(MemoryError::new(MemoryFault::ReadOnlyCoreFile, filename))
        }
    }

    /// Accepts `YYYY-MM-DD` with month 1 to 12 and day 1 to 31.
    pub fn validate_date(date: &str) -> (r: Result<(), MemoryError>)
        ensures
            checked(date_fault(date@), date@, r),
    {
        let b = chars_of(date);
        if b.len() != 10 || b[4] != '-' || b[7] != '-' || !digits_in(&b, 0, 4) || !digits_in(
            &b,
            5,
            7,
        ) || !digits_in(&b, 8, 10) {
            return Err(MemoryError::new(MemoryFault::InvalidDateFormat, date));
        }
        let month = two_digit_number(b[5], b[6]);
        let day = two_digit_number(b[8], b[9]);
        if month < 1 || month > 12 || day < 1 || day > 31 {
            return Err(MemoryError::new(MemoryFault::InvalidDateValue, date));
        }
        Ok(())
    }

    /// Accepts `YYYY-Wnn` with week 1 to 53.
    pub fn validate_week_id(id: &str) -> (r: Result<(), MemoryError>)
        ensures
            checked(week_fault(id@), id@, r),
    {
        let b = chars_of(id);
        if b.len() != 8 || b[4] != '-' || b[5] != 'W' || !digits_in(&b, 0, 4) || !digits_in(
            &b,
            6,
            8,
        ) {
            return Err(MemoryError::new(MemoryFault::InvalidWeekFormat, id));
        }
        let week = two_digit_number(b[6], b[7]);
        if week < 1 || week > 53 {
            return Err(MemoryError::new(MemoryFault::InvalidWeekNumber, id));
        }
        Ok(())
    }

    /// Accepts `YYYY-MM` with month 1 to 12.
    pub fn validate_month_id(id: &str) -> (r: Result<(), MemoryError>)
        ensures
            checked(month_fault(id@), id@, r),
    {
        let b = chars_of(id);
        if b.len() != 7 || b[4] != '-' || !digits_in(&b, 0, 4) || !digits_in(&b, 5, 7) {
            return Err(MemoryError::new(MemoryFault::InvalidMonthFormat, id));
        }
        let month = two_digit_number(b[5], b[6]);
        if month < 1 || month > 12 {
            return Err(MemoryError::new(MemoryFault::InvalidMonthNumber, id));
        }
        Ok(())
    }
}

} // verus!
