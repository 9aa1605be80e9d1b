//! Rendering a record as the line written to its thread's sink.
//!
//! The canonical format is one UTF-8 line per record: the upper-case
//! severity name, a separating ` - `, the message, and a newline. The
//! message arrives here already materialized as an owned string, which is
//! what makes a write safe against reentrant log calls: nothing that runs
//! while the sink is held can itself render a message.

use vstd::prelude::*;
use vstd::string::StringExecFns;

verus! {

/// Severity of a record, from most to least urgent.
#[derive(Clone, Copy, PartialEq, Eq, Structural, Debug)]
pub enum Level {
    Error,
    Warn,
    Info,
    Debug,
    Trace,
}

/// Numeric rank of a severity; a smaller rank is more urgent.
pub open spec fn level_num(l: Level) -> int {
    match l {
        Level::Error => 1,
        Level::Warn => 2,
        Level::Info => 3,
        Level::Debug => 4,
        Level::Trace => 5,
    }
}

/// The upper-case name a severity prints as.
pub open spec fn level_name_spec(l: Level) -> Seq<char> {
    match l {
        Level::Error => "ERROR"@,
        Level::Warn => "WARN"@,
        Level::Info => "INFO"@,
        Level::Debug => "DEBUG"@,
        Level::Trace => "TRACE"@,
    }
}

/// The upper-case name of a severity.
pub fn level_name(l: Level) -> (r: &'static str)
    ensures
        r@ == level_name_spec(l),
{
    match l {
        Level::Error => "ERROR",
        Level::Warn => "WARN",
        Level::Info => "INFO",
        Level::Debug => "DEBUG",
        Level::Trace => "TRACE",
    }
}

/// The line written for one record: the severity name, ` - `, the message,
/// and a newline.
pub open spec fn rendered_line_spec(l: Level, msg: Seq<char>) -> Seq<char> {
    level_name_spec(l) + " - "@ + msg + "\n"@
}

/// Render one record as the line its sink receives.
pub fn render_line(l: Level, msg: &str) -> (r: String)
    ensures
        r@ == rendered_line_spec(l, msg@),
{
    let mut r = level_name(l).to_owned();
    r.append(" - ");
    r.append(msg);
    r.append("\n");
    r
}

/// The message of the banner record that announces a successful
/// initialization.
pub open spec fn banner_text_spec(prefix: Seq<char>) -> Seq<char> {
    "Set up logging; filename prefix is "@ + prefix
}

/// The banner message announcing the given file name prefix.
pub fn banner_text(prefix: &str) -> (r: String)
    ensures
        r@ == banner_text_spec(prefix@),
{
    let mut r = "Set up logging; filename prefix is ".to_owned();
    r.append(prefix);
    r
}

} // verus!
