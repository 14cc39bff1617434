//! The lines that the launcher writes to its log files and console.
use vstd::prelude::*;

use crate::text::{chars_of, copy_range, split, split_chars, string_from_chars, char_vec_views, lemma_split_nonempty};

verus! {

/// How serious a log entry is.
#[derive(Clone, Copy, Debug, PartialEq, Eq, Structural)]
pub enum LogLevel {
    Info,
    Error,
}

pub open spec fn spec_label(level: LogLevel) -> Seq<char> {
    match level {
        LogLevel::Info => "INFO"@,
        LogLevel::Error => "ERROR"@,
    }
}

impl LogLevel {
    /// The label written in each entry.
    pub fn label(self) -> (r: &'static str)
        ensures
            r@ == spec_label(self),
    {
        match self {
            LogLevel::Info => "INFO",
            LogLevel::Error => "ERROR",
        }
    }
}

/// One log entry: `timestamp [LEVEL] message` and a line break.
pub open spec fn spec_entry(level: LogLevel, timestamp: Seq<char>, message: Seq<char>) -> Seq<char> {
    timestamp + " ["@ + spec_label(level) + "] "@ + message + "\n"@
}

/// A line without the carriage return before its line feed.
pub open spec fn strip_cr(line: Seq<char>) -> Seq<char> {
    if line.len() > 0 && line.last() == '\r' {
        line.drop_last()
    } else {
        line
    }
}

/// The lines of a text (`str::lines`): split at line feeds, a carriage
/// return before a line feed dropped, and no empty line after a final
/// line feed.
pub open spec fn spec_lines(text: Seq<char>) -> Seq<Seq<char>> {
    let parts = split(text, '\n');
    let ended = parts.drop_last().map_values(|p: Seq<char>| strip_cr(p));
    if parts.last().len() == 0 {
        ended
    } else {
        ended.push(parts.last())
    }
}

/// The entries for a message: one per line, or one empty entry when the
/// message has no lines.
pub open spec fn spec_log_entries(level: LogLevel, timestamp: Seq<char>, message: Seq<char>) -> Seq<
    Seq<char>,
> {
    let lines = spec_lines(message);
    if lines.len() == 0 {
        seq![spec_entry(level, timestamp, Seq::<char>::empty())]
    } else {
        lines.map_values(|line: Seq<char>| spec_entry(level, timestamp, line))
    }
}

/// A log entry for one line.
pub fn build_entry(level: LogLevel, timestamp: &str, message: &str) -> (r: String)
    ensures
        r@ == spec_entry(level, timestamp@, message@),
{
    let mut entry = String::from_str(timestamp);
    entry.append(" [");
    entry.append(level.label());
    entry.append("] ");
    entry.append(message);
    entry.append("\n");
    entry
}

/// The lines of a text, as `str::lines` gives them.
pub fn lines_of(text: &str) -> (r: Vec<String>)
    ensures
        crate::text::string_views(r@) == spec_lines(text@),
{
    let chars = chars_of(text);
    let parts = split_chars(&chars, '\n');
    let ghost sp = split(text@, '\n');
    proof {
        lemma_split_nonempty(text@, '\n');
    }
    let n = parts.len();
    let mut r: Vec<String> = Vec::new();
    let ghost ended = sp.drop_last().map_values(|p: Seq<char>| strip_cr(p));
    for i in 0..n - 1
        invariant
            n == parts@.len() == sp.len(),
            n >= 1,
            char_vec_views(parts@) == sp,
            ended == sp.drop_last().map_values(|p: Seq<char>| strip_cr(p)),
            crate::text::string_views(r@) == ended.take(i as int),
    {
        assert(parts@[i as int]@ == sp[i as int]);
        let part = &parts[i];
        let len = part.len();
        let line = if len > 0 && part[len - 1] == '\r' {
            copy_range(part, 0, len - 1)
        } else {
            copy_range(part, 0, len)
        };
        assert(part@.subrange(0, len as int) =~= part@);
        assert(len > 0 ==> part@.subrange(0, len - 1) =~= part@.drop_last());
        assert(line@ == strip_cr(sp[i as int]));
        assert(sp.drop_last()[i as int] == sp[i as int]);
        assert(ended[i as int] == strip_cr(sp[i as int]));
        let ghost before = r@;
        r.push(string_from_chars(&line));
        assert(crate::text::string_views(r@) =~= crate::text::string_views(before).push(line@));
        assert(ended.take(i + 1) =~= ended.take(i as int).push(ended[i as int]));
    }
    assert(ended.take((n - 1) as int) =~= ended);
    assert(parts@[n - 1]@ == sp.last());
    if parts[n - 1].len() > 0 {
        let ghost before = r@;
        r.push(string_from_chars(&parts[n - 1]));
        assert(crate::text::string_views(r@) =~= ended.push(sp.last()));
    }
    r
}

/// The entries written for a message logged at `timestamp`: one per line
/// of the message, or a single empty one.
pub fn log(level: LogLevel, timestamp: &str, message: &str) -> (r: Vec<String>)
    ensures
        crate::text::string_views(r@) == spec_log_entries(level, timestamp@, message@),
{
    let lines = lines_of(message);
    let mut entries: Vec<String> = Vec::new();
    if lines.len() == 0 {
        entries.push(build_entry(level, timestamp, ""));
        proof {
            reveal_strlit("");
        }
        assert(crate::text::string_views(entries@) =~= spec_log_entries(level, timestamp@, message@));
        return entries;
    }
    let n = lines.len();
    let ghost ls = spec_lines(message@);
    for i in 0..n
        invariant
            n == lines@.len() == ls.len(),
            crate::text::string_views(lines@) == ls,
            crate::text::string_views(entries@) == ls.take(i as int).map_values(
                |line: Seq<char>| spec_entry(level, timestamp@, line),
            ),
    {
        assert(lines@[i as int]@ == ls[i as int]);
        let ghost before = entries@;
        let entry = build_entry(level, timestamp, lines[i].as_str());
        entries.push(entry);
        assert(crate::text::string_views(entries@) =~= crate::text::string_views(before).push(
            spec_entry(level, timestamp@, ls[i as int]),
        ));
        assert(crate::text::string_views(entries@) =~= ls.take(i + 1).map_values(
            |line: Seq<char>| spec_entry(level, timestamp@, line),
        ));
    }
    assert(ls.take(n as int) =~= ls);
    entries
}

/// The entry written to the console when logging could not start.
pub fn log_startup_error(timestamp: &str, message: &str) -> (r: String)
    ensures
        r@ == spec_entry(LogLevel::Error, timestamp@, message@),
{
    build_entry(LogLevel::Error, timestamp, message)
}

/// The file name of the archive log for a day.
pub fn archive_log_file_name(date: &str) -> (r: String)
    ensures
        r@ == "LatiteLauncher-"@ + date@ + ".log"@,
{
    let mut name = String::from_str("LatiteLauncher-");
    name.append(date);
    name.append(".log");
    name
}

/// The first entry of a run, naming the two log files it writes to.
pub fn logging_initialized_message(latest_log_path: &str, archive_log_path: &str) -> (r: String)
    ensures
        r@ == "Launcher logging initialized. Writing to "@ + latest_log_path@ + " and "@
            + archive_log_path@ + "."@,
{
    let mut message = String::from_str("Launcher logging initialized. Writing to ");
    message.append(latest_log_path);
    message.append(" and ");
    message.append(archive_log_path);
    message.append(".");
    message
}

/// The archive log changes when the day does.
pub fn archive_needs_rotation(current_date: &str, archive_date: &str) -> (r: bool)
    ensures
        r == (current_date@ != archive_date@),
{
    !crate::text::str_equal(current_date, archive_date)
}

/// Every message is logged as at least one entry, and a message of `n`
/// lines as exactly `n` entries.
pub proof fn lemma_log_entry_count(level: LogLevel, timestamp: Seq<char>, message: Seq<char>)
    ensures
        spec_log_entries(level, timestamp, message).len() >= 1,
        spec_lines(message).len() > 0 ==> spec_log_entries(level, timestamp, message).len()
            == spec_lines(message).len(),
{
}

} // verus!
