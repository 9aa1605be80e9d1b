//! The severity/module-path filter, parsed once from a directive string in
//! the style of the `RUST_LOG` environment variable.
//!
//! The filtering language itself is env_logger's; this library consumes it
//! as a black-box predicate over a record's severity and target, a pure
//! function of the directive string the filter was parsed from.

use vstd::prelude::*;
use crate::render::{level_num, Level};

verus! {

#[verifier::external_type_specification]
#[verifier::external_body]
pub struct ExLogger(env_logger::Logger);

/// The decision env_logger's filter makes for a directive string, a
/// severity rank and a target module path; left uninterpreted.
pub uninterp spec fn filter_allows(directives: Seq<char>, level: int, target: Seq<char>) -> bool;

/// An immutable predicate over (severity, module path) pairs, built once
/// from a directive string and read-only afterwards.
pub struct FilterSpec {
    logger: env_logger::Logger,
    text: String,
}

impl FilterSpec {
    /// The directive string this filter was parsed from.
    pub closed spec fn directives(&self) -> Seq<char> {
        self.text@
    }

    /// Relies on env_logger's `Builder::parse_filters` and `Builder::build`:
    /// together they turn a directive string into the filter that string
    /// describes.
    #[verifier::external_body]
    pub fn parse(directives: &str) -> (r: FilterSpec)
        ensures
            r.directives() == directives@,
    {
        let mut builder = env_logger::Builder::new();
        builder.parse_filters(directives);
        FilterSpec { logger: builder.build(), text: directives.to_owned() }
    }

    /// Relies on env_logger's `Logger::enabled` (through its `log::Log`
    /// impl): the decision reads only the directives the logger was built
    /// from and the record's level and target, so it is a function of this
    /// filter's directive string.
    #[verifier::external_body]
    fn logger_enabled(&self, level: Level, target: &str) -> (r: bool)
        ensures
            r == filter_allows(self.directives(), level_num(level), target@),
    {
        let lvl = match level {
            Level::Error => log::Level::Error,
            Level::Warn => log::Level::Warn,
            Level::Info => log::Level::Info,
            Level::Debug => log::Level::Debug,
            Level::Trace => log::Level::Trace,
        };
        let metadata = log::Metadata::builder().level(lvl).target(target).build();
        log::Log::enabled(&self.logger, &metadata)
    }

    /// Whether a record with this severity and target passes the filter.
    pub fn enabled(&self, level: Level, target: &str) -> (r: bool)
        ensures
            r == filter_allows(self.directives(), level_num(level), target@),
    {
        self.logger_enabled(level, target)
    }
}

} // verus!
