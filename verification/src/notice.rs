//! Notices of failures met while loading, for the console and for the error log.

use crate::config::StoredStatic;
use vstd::prelude::*;
use vstd::string::StringExecFns;

verus! {

/// How grave a failure is.
#[derive(Clone, Copy, Debug, PartialEq, Eq, Structural)]
pub enum Severity {
    /// The path given to the loader could not be examined.
    Error,
    /// One file could not be read or parsed.
    Warn,
}

/// The notice of one failure.
#[derive(Debug)]
pub struct Notice {
    pub severity: Severity,
    /// What failed, and why.
    pub message: String,
    /// The notice is to be shown on the console.
    pub alert: bool,
    /// The notice is to be kept in the error log.
    pub record: bool,
}

/// A notice as mathematical values.
pub struct NoticeView {
    pub severity: Severity,
    pub message: Seq<char>,
    pub alert: bool,
    pub record: bool,
}

impl View for Notice {
    type V = NoticeView;

    open spec fn view(&self) -> NoticeView {
        NoticeView {
            severity: self.severity,
            message: self.message@,
            alert: self.alert,
            record: self.record,
        }
    }
}

/// The views of a list of notices.
pub open spec fn notices_view(notices: Seq<Notice>) -> Seq<NoticeView> {
    Seq::new(notices.len(), |i: int| notices[i]@)
}

/// The message for a path whose metadata could not be read.
pub open spec fn metadata_message(path: Seq<char>) -> Seq<char> {
    "fail to read metadata of file: "@ + path
}

/// The message for a file that could not be read.
pub open spec fn read_message(path: Seq<char>, cause: Seq<char>) -> Seq<char> {
    "fail to read file: "@ + path + "\n"@ + cause + " "@
}

/// The message for a file whose text is no well-formed document.
pub open spec fn parse_message(path: Seq<char>, cause: Seq<char>) -> Seq<char> {
    "Failed to parse yml: "@ + path + "\n"@ + cause + " "@
}

/// The tag that a line of the error log starts with.
pub open spec fn severity_tag(severity: Severity) -> Seq<char> {
    match severity {
        Severity::Error => "[ERROR] "@,
        Severity::Warn => "[WARN] "@,
    }
}

/// The notice of a failure under the settings `verbose` and `quiet`: shown on the
/// console in verbose runs, kept in the error log unless errors are quiet.
pub open spec fn notice_of(severity: Severity, message: Seq<char>, verbose: bool, quiet: bool) -> NoticeView {
    NoticeView { severity, message, alert: verbose, record: !quiet }
}

/// The message for a path whose metadata could not be read.
pub fn metadata_failure(path: &str) -> (message: String)
    ensures
        message@ == metadata_message(path@),
{
    String::from_str("fail to read metadata of file: ").concat(path)
}

/// The message for a file that could not be read.
pub fn read_failure(path: &str, cause: &str) -> (message: String)
    ensures
        message@ == read_message(path@, cause@),
{
    String::from_str("fail to read file: ").concat(path).concat("\n").concat(cause).concat(" ")
}

/// The message for a file whose text is no well-formed document.
pub fn parse_failure(path: &str, cause: &str) -> (message: String)
    ensures
        message@ == parse_message(path@, cause@),
{
    String::from_str("Failed to parse yml: ").concat(path).concat("\n").concat(cause).concat(" ")
}

impl Notice {
    /// The notice of a failure under the given settings.
    pub fn new(severity: Severity, message: String, stored_static: &StoredStatic) -> (notice: Notice)
        ensures
            notice@ == notice_of(
                severity,
                message@,
                stored_static.verbose_flag,
                stored_static.quiet_errors_flag,
            ),
    {
        Notice {
            severity,
            message,
            alert: stored_static.verbose_flag,
            record: !stored_static.quiet_errors_flag,
        }
    }

    /// The line that stands for this notice in the error log: its tag, then its message.
    pub fn line(&self) -> (text: String)
        ensures
            text@ == severity_tag(self.severity) + self.message@,
    {
        match self.severity {
            Severity::Error => String::from_str("[ERROR] ").concat(self.message.as_str()),
            Severity::Warn => String::from_str("[WARN] ").concat(self.message.as_str()),
        }
    }
}

} // verus!
