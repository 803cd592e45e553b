//! The configuration of the diary, and the names of its log files.

use vstd::prelude::*;
use crate::text::{
    occurs_at, push_all, same_chars, starts_at, string_of, to_chars,
};
use crate::time::{date_text, format_date, parse_ymd, parsed_ymd, Date};

verus! {

/// Where the log files are.
#[derive(Debug, PartialEq, Eq, Default)]
pub struct LogConfig {
    /// The directory that holds one log file for each day.
    pub dir: String,
}

/// The configuration of the diary.
#[derive(Debug, PartialEq, Eq, Default)]
pub struct Config {
    pub log: LogConfig,
}

/// The key of the log directory.
pub open spec fn log_dir_key() -> Seq<char> {
    seq!['l', 'o', 'g', '.', 'd', 'i', 'r']
}

/// The ending of the name of a log file.
pub open spec fn log_suffix() -> Seq<char> {
    seq!['.', 'l', 'o', 'g']
}

/// The name of the log file of a day: the date followed by `.log`.
pub open spec fn log_file_name_of(year: int, month: int, day: int) -> Seq<char> {
    date_text(year, month, day) + log_suffix()
}

/// `s` without every occurrence of `needle`, taken from left to right.
pub open spec fn without(s: Seq<char>, needle: Seq<char>, from: int) -> Seq<char>
    decreases s.len() - from,
{
    if from < 0 || from >= s.len() || needle.len() == 0 {
        Seq::empty()
    } else if occurs_at(s, needle, from) {
        without(s, needle, from + needle.len())
    } else {
        seq![s[from]] + without(s, needle, from + 1)
    }
}

/// The day that a file name stands for: the name ends with `.log`, and
/// what is left of it without every `.log` is a date. Nothing otherwise.
pub open spec fn date_of_file_name(name: Seq<char>) -> Option<(int, int, int)> {
    if occurs_at(name, log_suffix(), name.len() - 4) {
        parsed_ymd(without(name, log_suffix(), 0))
    } else {
        None
    }
}

fn suffix_chars() -> (v: Vec<char>)
    ensures
        v@ == log_suffix(),
{
    let mut v: Vec<char> = Vec::new();
    v.push('.');
    v.push('l');
    v.push('o');
    v.push('g');
    assert(v@ =~= log_suffix());
    v
}

impl Config {
    /// The value of a key of the configuration; `log.dir` is the only key.
    pub fn get_by_key(&self, key: &str) -> (value: Option<&str>)
        ensures
            key@ == log_dir_key() ==> value is Some && value->0@ == self.log.dir@,
            key@ != log_dir_key() ==> value is None,
    {
        let mut name: Vec<char> = Vec::new();
        name.push('l');
        name.push('o');
        name.push('g');
        name.push('.');
        name.push('d');
        name.push('i');
        name.push('r');
        assert(name@ =~= log_dir_key());
        if same_chars(&to_chars(key), &name) {
            Some(self.log.dir.as_str())
        } else {
            None
        }
    }
}

#[verifier::external_type_specification]
#[verifier::external_body]
pub struct ExPath(std::path::Path);

#[verifier::external_type_specification]
#[verifier::external_body]
pub struct ExPathBuf(std::path::PathBuf);

/// The path that `std::path::Path::join` makes of a directory and a name.
pub uninterp spec fn joined_path(dir: &std::path::Path, name: Seq<char>) -> std::path::PathBuf;

/// Calls `std::path::Path::join`. Trusted: the result is the named one.
#[verifier::external_body]
pub(crate) fn join_path(dir: &std::path::Path, name: &str) -> (r: std::path::PathBuf)
    ensures
        r == joined_path(dir, name@),
{
    dir.join(name)
}

/// The path of the configuration file in its directory.
pub fn config_file_path(config_dir_path: &std::path::Path) -> (r: std::path::PathBuf)
    ensures
        r == joined_path(config_dir_path, "conf.toml"@),
{
    join_path(config_dir_path, "conf.toml")
}

/// The path of the log file of a day in the log directory.
pub fn construct_log_file_path(log_dir_path: &std::path::Path, date: &Date) -> (r:
    std::path::PathBuf)
    requires
        date.wf(),
    ensures
        r == joined_path(
            log_dir_path,
            log_file_name_of(date.year as int, date.month as int, date.day as int),
        ),
{
    join_path(log_dir_path, log_file_name(date).as_str())
}

/// The name of the log file of a day.
pub fn log_file_name(date: &Date) -> (name: String)
    requires
        date.wf(),
    ensures
        name@ == log_file_name_of(date.year as int, date.month as int, date.day as int),
{
    let mut out = to_chars(format_date(date).as_str());
    let suffix = suffix_chars();
    push_all(&mut out, &suffix);
    string_of(&out)
}

/// The day that the name of a log file stands for.
pub fn get_date_from_log_file_name(file_name: &str) -> (date: Option<Date>)
    ensures
        match date {
            Some(d) => d.wf() && date_of_file_name(file_name@) == Some(d.fields()),
            None => date_of_file_name(file_name@) is None,
        },
{
    let name = to_chars(file_name);
    let suffix = suffix_chars();
    if name.len() < 4 || !starts_at(&name, &suffix, name.len() - 4) {
        return None;
    }
    let mut rest: Vec<char> = Vec::new();
    let mut i: usize = 0;
    assert(rest@ + without(name@, suffix@, 0) =~= without(name@, suffix@, 0));
    while i < name.len()
        invariant
            i <= name.len(),
            suffix@ == log_suffix(),
            rest@ + without(name@, suffix@, i as int) == without(name@, suffix@, 0),
        decreases name.len() - i,
    {
        if starts_at(&name, &suffix, i) {
            i += 4;
        } else {
            let ghost before = rest@;
            rest.push(name[i]);
            assert(rest@ + without(name@, suffix@, i + 1) =~= before + (seq![name@[i as int]]
                + without(name@, suffix@, i + 1)));
            i += 1;
        }
    }
    assert(rest@ + Seq::<char>::empty() =~= rest@);
    parse_ymd(string_of(&rest).as_str())
}

} // verus!
