//! Message levels of the provisioner's console output, and the colour and
//! symbol that each level is printed with.

use vstd::prelude::*;

verus! {

/// The level of a console message.
#[derive(Clone, Copy, Debug, PartialEq, Eq, Structural)]
pub enum LogLevel {
    /// A progress note (honey pot symbol).
    Honey,
    /// A completed step.
    Success,
    /// Something the operator should look at.
    Warning,
    /// A failure; printed to standard error.
    Error,
    /// A neutral remark.
    Info,
}

/// A message together with its level.
pub struct LogLine {
    pub level: LogLevel,
    pub text: String,
}

/// One line of console output: printed as it stands, or as a message of
/// a level.
pub enum Output {
    Plain(String),
    Message(LogLevel, String),
}

/// What goes before a message of the given level.
pub open spec fn style_prefix(level: LogLevel) -> Seq<char> {
    match level {
        LogLevel::Honey => "\x1b[38;5;178m🍯 "@,
        LogLevel::Success => "\x1b[32m✅ "@,
        LogLevel::Warning => "\x1b[33m⚠️  "@,
        LogLevel::Error => "\x1b[31m❌ "@,
        LogLevel::Info => "\x1b[36mℹ️  "@,
    }
}

/// The console text of a message of the given level.
pub open spec fn styled_text(level: LogLevel, msg: Seq<char>) -> Seq<char> {
    style_prefix(level) + msg + "\x1b[0m"@
}

/// What goes before a message of the given level.
pub fn prefix(level: LogLevel) -> (r: &'static str)
    ensures
        r@ == style_prefix(level),
{
    match level {
        LogLevel::Honey => "\x1b[38;5;178m🍯 ",
        LogLevel::Success => "\x1b[32m✅ ",
        LogLevel::Warning => "\x1b[33m⚠️  ",
        LogLevel::Error => "\x1b[31m❌ ",
        LogLevel::Info => "\x1b[36mℹ️  ",
    }
}

/// The console text of `msg` at the given level (without the newline that
/// printing adds).
pub fn styled(level: LogLevel, msg: &str) -> (r: String)
    ensures
        r@ == styled_text(level, msg@),
{
    let mut r = String::from_str(prefix(level));
    r.append(msg);
    r.append("\x1b[0m");
    r
}

/// Whether a message of this level goes to standard error.
pub fn to_stderr(level: LogLevel) -> (r: bool)
    ensures
        r == (level == LogLevel::Error),
{
    match level {
        LogLevel::Error => true,
        _ => false,
    }
}

/// A message of the given level.
pub fn log_line(level: LogLevel, text: &str) -> (r: LogLine)
    ensures
        r.level == level,
        r.text@ == text@,
{
    LogLine { level, text: String::from_str(text) }
}

} // verus!
