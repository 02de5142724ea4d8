//! Log levels, the verbosity filter, and the fixed mapping from a level to
//! the event-recording facility's severity classification.

use vstd::prelude::*;

verus! {

/// The five levels of the logging facade, from most to least verbose.
#[derive(Clone, Copy, PartialEq, Eq, Structural, Debug)]
pub enum Level {
    Trace,
    Debug,
    Info,
    Warn,
    Error,
}

/// The facade's global verbosity threshold: `Off` passes nothing,
/// `Trace` passes everything.
#[derive(Clone, Copy, PartialEq, Eq, Structural, Debug)]
pub enum LevelFilter {
    Off,
    Error,
    Warn,
    Info,
    Debug,
    Trace,
}

/// How severe a level is: `Trace` is the least severe, `Error` the most.
pub open spec fn severity(level: Level) -> int {
    match level {
        Level::Trace => 0,
        Level::Debug => 1,
        Level::Info => 2,
        Level::Warn => 3,
        Level::Error => 4,
    }
}

/// The sink's static threshold: a record is accepted exactly when its level
/// is at least as severe as `Debug`, which rejects `Trace` alone.
pub open spec fn enabled_spec(level: Level) -> bool {
    severity(level) >= severity(Level::Debug)
}

/// The event-recording facility classifies an entry as informational.
pub const EVENTLOG_INFORMATION_TYPE: u16 = 4;

/// The event-recording facility classifies an entry as a warning.
pub const EVENTLOG_WARNING_TYPE: u16 = 2;

/// The event-recording facility classifies an entry as an error.
pub const EVENTLOG_ERROR_TYPE: u16 = 1;

/// The fixed, total mapping from a facade level to the facility's coarser
/// severity classification.
pub open spec fn event_type_spec(level: Level) -> u16 {
    match level {
        Level::Trace => EVENTLOG_INFORMATION_TYPE,
        Level::Debug => EVENTLOG_INFORMATION_TYPE,
        Level::Info => EVENTLOG_INFORMATION_TYPE,
        Level::Warn => EVENTLOG_WARNING_TYPE,
        Level::Error => EVENTLOG_ERROR_TYPE,
    }
}

/// Classifies a record's level for the event-recording facility.
pub fn event_type_for(level: Level) -> (t: u16)
    ensures
        t == event_type_spec(level),
{
    match level {
        Level::Trace => EVENTLOG_INFORMATION_TYPE,
        Level::Debug => EVENTLOG_INFORMATION_TYPE,
        Level::Info => EVENTLOG_INFORMATION_TYPE,
        Level::Warn => EVENTLOG_WARNING_TYPE,
        Level::Error => EVENTLOG_ERROR_TYPE,
    }
}

/// The severity mapping is total and lands on the three classifications the
/// facility knows, never on any other value.
pub proof fn lemma_event_type_total(level: Level)
    ensures
        event_type_spec(level) == EVENTLOG_INFORMATION_TYPE
            || event_type_spec(level) == EVENTLOG_WARNING_TYPE
            || event_type_spec(level) == EVENTLOG_ERROR_TYPE,
{
}

} // verus!
