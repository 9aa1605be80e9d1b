//! A logging router that writes each thread's records to a file of its own.
//!
//! The router binds each thread lazily to one buffered sink, names that sink
//! from the thread's identity, filters records through a directive string in
//! the style of the `RUST_LOG` environment variable, and renders each record
//! as one line. The state machine here is pure: it takes the process-wide
//! and per-thread state as values and returns the effect (a file to create,
//! bytes to append) that the caller performs.

pub mod filtering;
pub mod naming;
pub mod render;

use vstd::prelude::*;
use vstd::string::StringExecFns;
use crate::filtering::{filter_allows, FilterSpec};
use crate::naming::{file_name_spec, name_view, sink_file_name};
use crate::render::{banner_text, banner_text_spec, level_num, render_line, rendered_line_spec, Level};

verus! {

/// A thread's sink: the path its file was created at, and a mirror of every
/// byte the router has written to it, in order.
pub struct Sink {
    /// The path the file was created at.
    pub path: String,
    /// The bytes written so far, in emission order.
    pub content: String,
}

/// The per-thread half of the router's state: at most one lazily-bound
/// sink, and whether a write on this thread is already in progress.
pub struct ThreadState {
    /// The sink bound to this thread, if one has been created.
    pub sink: Option<Sink>,
    /// True while an outer write on this thread holds the sink; a log call
    /// arriving then is dropped instead of conflicting with that write.
    pub writing: bool,
}

/// The process-wide half of the router's state: the filter installed by the
/// first successful initialization, and the uninitialized-thread policy.
pub struct ProcessState {
    /// The installed filter; `None` until some thread initializes with a
    /// directive string present. Installation is write-once.
    pub router: Option<FilterSpec>,
    /// Whether threads that never initialized may still receive a sink,
    /// named with an empty prefix, instead of failing.
    pub allow_uninitialized: bool,
}

/// What an initialization call asks its caller to perform.
#[derive(Debug, PartialEq, Eq)]
pub struct InitEffect {
    /// The path of the file to create (create/truncate) for this thread's
    /// sink; `None` when the thread already had a sink or nothing happened.
    pub created: Option<String>,
    /// The banner line to append to this thread's file, when the installed
    /// filter lets the banner record through.
    pub banner: Option<String>,
}

/// What a log call asks its caller to perform.
#[derive(Debug, PartialEq, Eq)]
pub enum LogEffect {
    /// No filter is installed, or the record does not pass it: nothing is
    /// written.
    Skipped,
    /// A write on this thread was already in progress; the nested write is
    /// dropped rather than allowed to conflict with it.
    DroppedReentrant,
    /// The thread has no sink and the uninitialized-thread policy is off:
    /// a setup-contract violation, fatal to the calling thread.
    MissingSink,
    /// A sink was created for this thread and the line written to it.
    Created { path: String, bytes: String },
    /// The line was appended to the thread's existing sink.
    Appended { bytes: String },
}

/// What a flush call asks its caller to perform.
#[derive(Debug, PartialEq, Eq)]
pub enum FlushEffect {
    /// Flush the calling thread's sink to durable storage.
    Flush,
    /// Nothing to flush: no filter is installed, or the thread has no sink
    /// and the uninitialized-thread policy permits that.
    Nothing,
    /// The thread has no sink and the policy is off: a setup-contract
    /// violation, fatal to the calling thread.
    MissingSink,
}

impl ThreadState {
    /// The state of a thread before any initialization or logging: no sink,
    /// no write in progress.
    pub fn new() -> (t: ThreadState)
        ensures
            t.sink is None,
            !t.writing,
    {
        ThreadState { sink: None, writing: false }
    }
}

impl ProcessState {
    /// The state of a process before any initialization: no filter
    /// installed, uninitialized threads not permitted.
    pub fn new() -> (p: ProcessState)
        ensures
            p.router is None,
            !p.allow_uninitialized,
    {
        ProcessState { router: None, allow_uninitialized: false }
    }
}

/// The bytes so far in the thread's sink, or empty if none is bound.
pub open spec fn bound_content(t: ThreadState) -> Seq<char> {
    if t.sink is Some {
        t.sink.unwrap().content@
    } else {
        Seq::empty()
    }
}

/// Whether the installed filter lets a record with this severity and target
/// through; false while no filter is installed.
pub open spec fn routing_allows(p: ProcessState, level: Level, target: Seq<char>) -> bool {
    &&& p.router is Some
    &&& filter_allows(p.router.unwrap().directives(), level_num(level), target)
}

/// Permit threads that never initialized to receive a sink, named with an
/// empty prefix, when they first log. The flag is write-once: nothing else
/// of the process state changes.
pub fn allow_uninitialized(proc: &mut ProcessState)
    ensures
        final(proc).allow_uninitialized,
        final(proc).router == old(proc).router,
{
    proc.allow_uninitialized = true;
}

/// Initialize logging for the calling thread.
///
/// With no directive string present, logging stays disabled and nothing at
/// all happens. With one present, the thread receives a sink immediately if
/// it has none (an existing sink is never replaced), the parsed filter is
/// installed if the process has none yet (the first successful call wins),
/// and one banner record announcing the prefix is routed through the
/// installed filter onto this thread's sink.
pub fn initialize(
    proc: &mut ProcessState,
    thread: &mut ThreadState,
    filename_prefix: &str,
    filter_directive: Option<&str>,
    thread_name: Option<&str>,
    thread_id_text: &str,
) -> (eff: InitEffect)
    ensures
        final(proc).allow_uninitialized == old(proc).allow_uninitialized,
        final(thread).writing == old(thread).writing,
        filter_directive is None ==> ({
            &&& *final(proc) == *old(proc)
            &&& *final(thread) == *old(thread)
            &&& eff.created is None
            &&& eff.banner is None
        }),
        filter_directive matches Some(d) ==> ({
            let dirs = if old(proc).router is Some {
                old(proc).router.unwrap().directives()
            } else {
                d@
            };
            let banner_on = filter_allows(
                dirs,
                level_num(Level::Info),
                "file_per_thread_logger"@,
            );
            let line = rendered_line_spec(Level::Info, banner_text_spec(filename_prefix@));
            &&& old(proc).router is Some ==> final(proc).router == old(proc).router
            &&& old(proc).router is None ==> final(proc).router is Some
                && final(proc).router.unwrap().directives() == d@
            &&& final(thread).sink is Some
            &&& old(thread).sink matches Some(s) ==> eff.created is None
                && final(thread).sink.unwrap().path == s.path
            &&& old(thread).sink is None ==> ({
                &&& final(thread).sink.unwrap().path@ == file_name_spec(
                    filename_prefix@,
                    name_view(thread_name),
                    thread_id_text@,
                )
                &&& eff.created matches Some(p) && p@ == file_name_spec(
                    filename_prefix@,
                    name_view(thread_name),
                    thread_id_text@,
                )
            })
            &&& banner_on ==> (eff.banner matches Some(b) && b@ == line)
                && final(thread).sink.unwrap().content@ == bound_content(*old(thread)) + line
            &&& !banner_on ==> eff.banner is None
                && final(thread).sink.unwrap().content@ == bound_content(*old(thread))
        }),
{
    match filter_directive {
        None => InitEffect { created: None, banner: None },
        Some(d) => {
            let parsed = FilterSpec::parse(d);
            let created: Option<String> = if thread.sink.is_none() {
                let path = sink_file_name(filename_prefix, thread_name, thread_id_text);
                thread.sink = Some(Sink { path: path.clone(), content: String::new() });
                Some(path)
            } else {
                None
            };
            if proc.router.is_none() {
                proc.router = Some(parsed);
            }
            let banner: Option<String> = match &proc.router {
                Some(filter) => {
                    if filter.enabled(Level::Info, "file_per_thread_logger") {
                        let text = banner_text(filename_prefix);
                        let line = render_line(Level::Info, text.as_str());
                        match &mut thread.sink {
                            Some(sink) => {
                                sink.content.append(line.as_str());
                            },
                            None => {},
                        }
                        Some(line)
                    } else {
                        None
                    }
                },
                None => None,
            };
            InitEffect { created, banner }
        },
    }
}

/// Route one record, already rendered to an owned message, for the calling
/// thread.
///
/// The record is dropped when no filter is installed or the filter rejects
/// it; dropped silently when a write on this thread is already in progress;
/// written to the thread's sink otherwise, creating the sink with an empty
/// name prefix first if the thread never initialized and the policy permits
/// that, and failing as a setup-contract violation if it does not.
pub fn log(
    proc: &ProcessState,
    thread: &mut ThreadState,
    level: Level,
    target: &str,
    message: &str,
    thread_name: Option<&str>,
    thread_id_text: &str,
) -> (eff: LogEffect)
    ensures
        final(thread).writing == old(thread).writing,
        !routing_allows(*proc, level, target@) ==> eff is Skipped && *final(thread) == *old(
            thread,
        ),
        routing_allows(*proc, level, target@) && old(thread).writing ==> eff
            is DroppedReentrant && *final(thread) == *old(thread),
        routing_allows(*proc, level, target@) && !old(thread).writing && old(thread).sink
            is None && !proc.allow_uninitialized ==> eff is MissingSink && *final(thread)
            == *old(thread),
        routing_allows(*proc, level, target@) && !old(thread).writing && old(thread).sink
            is None && proc.allow_uninitialized ==> ({
            let line = rendered_line_spec(level, message@);
            &&& final(thread).sink is Some
            &&& final(thread).sink.unwrap().path@ == file_name_spec(
                Seq::empty(),
                name_view(thread_name),
                thread_id_text@,
            )
            &&& final(thread).sink.unwrap().content@ == line
            &&& eff matches LogEffect::Created { path, bytes } && path@ == file_name_spec(
                Seq::empty(),
                name_view(thread_name),
                thread_id_text@,
            ) && bytes@ == line
        }),
        routing_allows(*proc, level, target@) && !old(thread).writing && old(thread).sink
            is Some ==> ({
            let line = rendered_line_spec(level, message@);
            let s = old(thread).sink.unwrap();
            &&& final(thread).sink is Some
            &&& final(thread).sink.unwrap().path == s.path
            &&& final(thread).sink.unwrap().content@ == s.content@ + line
            &&& eff matches LogEffect::Appended { bytes } && bytes@ == line
        }),
{
    let enabled = match &proc.router {
        None => false,
        Some(filter) => filter.enabled(level, target),
    };
    if !enabled {
        return LogEffect::Skipped;
    }
    if thread.writing {
        return LogEffect::DroppedReentrant;
    }
    let line = render_line(level, message);
    match &mut thread.sink {
        None => {
            if proc.allow_uninitialized {
                let path = sink_file_name("", thread_name, thread_id_text);
                let mut content = String::new();
                content.append(line.as_str());
                proof {
                    assert(content@ =~= rendered_line_spec(level, message@));
                    reveal_strlit("");
                    assert(""@ =~= Seq::<char>::empty());
                    assert(path@ =~= file_name_spec(
                        Seq::empty(),
                        name_view(thread_name),
                        thread_id_text@,
                    ));
                }
                thread.sink = Some(Sink { path: path.clone(), content });
                LogEffect::Created { path, bytes: line }
            } else {
                LogEffect::MissingSink
            }
        },
        Some(sink) => {
            sink.content.append(line.as_str());
            LogEffect::Appended { bytes: line }
        },
    }
}

/// Decide what flushing means for the calling thread: flush its sink if one
/// is bound; do nothing if no filter is installed, or if the thread has no
/// sink but the uninitialized-thread policy permits that; fail as a
/// setup-contract violation otherwise.
pub fn flush(proc: &ProcessState, thread: &ThreadState) -> (eff: FlushEffect)
    ensures
        proc.router is None ==> eff is Nothing,
        proc.router is Some && thread.sink is Some ==> eff is Flush,
        proc.router is Some && thread.sink is None && proc.allow_uninitialized ==> eff
            is Nothing,
        proc.router is Some && thread.sink is None && !proc.allow_uninitialized ==> eff
            is MissingSink,
{
    if proc.router.is_none() {
        FlushEffect::Nothing
    } else if thread.sink.is_some() {
        FlushEffect::Flush
    } else if proc.allow_uninitialized {
        FlushEffect::Nothing
    } else {
        FlushEffect::MissingSink
    }
}

} // verus!
