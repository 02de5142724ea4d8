//! The event-log sink: one named event source, a resource handle acquired
//! lazily at first use and released exactly once, and the per-record work of
//! classifying, rendering and encoding a log line.
//!
//! The sink itself never talks to the operating system. A caller drives it:
//! [`Logger::log`] says what must happen for a record (nothing, register
//! first, or report this entry), [`Logger::complete_registration`] records
//! the handle the one registration call produced, and
//! [`Logger::release_handle`] hands out the handle to deregister, at most
//! once. The one-shot concurrent guard around registration lives with the
//! caller; this module pins down what that guard must achieve: the handle is
//! written at most once and never changes afterwards.

use vstd::prelude::*;
use crate::level::{Level, event_type_spec, enabled_spec, event_type_for};
use crate::record::Record;
use crate::render::{rendered_line, nul_free_interior, format_record, lemma_rendered_encodable};

verus! {

/// Where the sink's resource handle stands in its life: not yet acquired,
/// acquired and usable, or already released.
///
/// A handle is an opaque value the operating system assigned at
/// registration; zero stands for the null handle a failed registration
/// returns, which the sink keeps and uses like any other, by design.
#[derive(Clone, Copy, PartialEq, Eq, Structural, Debug)]
pub enum HandleState {
    /// No registration has happened yet.
    Unset,
    /// The one registration call returned this handle.
    Acquired(u64),
    /// The handle was handed out for deregistration.
    Released,
}

/// What a caller must do for one record.
pub enum LogStep {
    /// The record's level is below the threshold: do nothing.
    Skipped,
    /// The sink's handle is not yet acquired: register the source name once,
    /// record the outcome with [`Logger::complete_registration`], and log
    /// again.
    NeedsRegistration,
    /// Submit this entry to the event-recording facility.
    Report(ReportEvent),
}

/// One fully-prepared entry for the event-recording facility.
pub struct ReportEvent {
    /// The handle the registration call returned.
    pub handle: u64,
    /// The facility's severity classification for this entry.
    pub event_type: u16,
    /// The facility's event category; always zero here.
    pub category: u16,
    /// The facility's event identifier; always zero here.
    pub event_id: u32,
    /// The rendered line as nul-terminated UTF-16 code units, the one string
    /// argument of the entry.
    pub message: Vec<u16>,
}

/// The nul-terminated UTF-16 code units of a string, as
/// `widestring::U16CString::from_str` produces them for a string it accepts.
pub uninterp spec fn utf16z_of(s: Seq<char>) -> Seq<u16>;

/// Relies on `widestring::U16CString::from_str` and `into_vec_with_nul`:
/// the result is the string's UTF-16 code units followed by one terminating
/// nul, and the conversion fails exactly when the string holds a nul
/// character anywhere before its final character.
#[verifier::external_body]
fn encode_utf16_nul_terminated(s: &str) -> (r: Option<Vec<u16>>)
    ensures
        (r is Some) == nul_free_interior(s@),
        (r matches Some(v) ==> v@ == utf16z_of(s@) && v@.len() >= 1 && v@[v@.len() - 1] == 0),
{
    match widestring::U16CString::from_str(s) {
        Ok(w) => Some(w.into_vec_with_nul()),
        Err(_) => None,
    }
}

/// Registration is only possible while the handle is unset.
pub open spec fn registration_allowed(st: HandleState) -> bool {
    st is Unset
}

/// The state after the one registration call returned `handle`.
pub open spec fn after_registration(handle: u64) -> HandleState {
    HandleState::Acquired(handle)
}

/// The state after the release step ran, whatever it found.
pub open spec fn after_release(st: HandleState) -> HandleState {
    HandleState::Released
}

/// What the release step hands out for deregistration: the handle if one was
/// ever acquired and not yet released, nothing otherwise.
pub open spec fn release_action(st: HandleState) -> Option<u64> {
    match st {
        HandleState::Acquired(h) => Option::Some(h),
        _ => Option::None,
    }
}

/// The sink: one fixed source name and the lazily-acquired handle.
pub struct Logger {
    name: String,
    handle: HandleState,
}

impl Logger {
    /// The event-source name this sink was built with.
    pub closed spec fn log_name(&self) -> Seq<char> {
        self.name@
    }

    /// Where the sink's handle stands.
    pub closed spec fn handle_state(&self) -> HandleState {
        self.handle
    }

    /// Builds a sink for the given source name. Pure: no registration
    /// happens until the first accepted record.
    pub fn new(name: &str) -> (logger: Logger)
        ensures
            logger.log_name() == name@,
            logger.handle_state() is Unset,
    {
        Logger { name: name.to_owned(), handle: HandleState::Unset }
    }

    /// The source name, for the caller that performs the registration call.
    pub fn source_name(&self) -> (name: &str)
        ensures
            name@ == self.log_name(),
    {
        self.name.as_str()
    }

    /// Whether a record of this level is accepted: exactly the levels of
    /// `Debug` severity and above, which excludes `Trace` alone.
    pub fn enabled(&self, level: Level) -> (accepted: bool)
        ensures
            accepted == enabled_spec(level),
    {
        match level {
            Level::Trace => false,
            _ => true,
        }
    }

    /// Whether the one registration call still has to be made.
    pub fn needs_registration(&self) -> (needed: bool)
        ensures
            needed == registration_allowed(self.handle_state()),
    {
        match self.handle {
            HandleState::Unset => true,
            _ => false,
        }
    }

    /// Records the outcome of the one registration call. Only callable while
    /// the handle is unset: the handle is written at most once.
    pub fn complete_registration(&mut self, handle: u64)
        requires
            registration_allowed(old(self).handle_state()),
        ensures
            final(self).log_name() == old(self).log_name(),
            final(self).handle_state() == after_registration(handle),
    {
        self.handle = HandleState::Acquired(handle);
    }

    /// Decides and prepares everything for one record.
    ///
    /// A record below the threshold is skipped with no effect. An accepted
    /// record either asks the caller to register first (when the handle is
    /// unset) or comes back as a fully-prepared entry: the rendered line as
    /// nul-terminated UTF-16, the severity classification, zero for category
    /// and event identifier, and the handle to report under. An accepted
    /// record that is not [`Record::encodable`] would abort in the encoding
    /// step, so that case is excluded here; a skipped record is never
    /// encoded and needs no such bound.
    pub fn log(&self, rec: &Record) -> (step: LogStep)
        requires
            enabled_spec(rec.level) ==> rec.encodable(),
            !(self.handle_state() is Released),
        ensures
            !enabled_spec(rec.level) ==> step is Skipped,
            enabled_spec(rec.level) && self.handle_state() is Unset ==> step is NeedsRegistration,
            (enabled_spec(rec.level) && self.handle_state() is Acquired)
                ==> (step matches LogStep::Report(ev) && ev.handle == self.handle_state()->Acquired_0 && ev.event_type
                == event_type_spec(rec.level) && ev.category == 0 && ev.event_id == 0
                && ev.message@ == utf16z_of(rendered_line(*rec)) && ev.message@.len() >= 1
                && ev.message@[ev.message@.len() - 1] == 0),
    {
        if !self.enabled(rec.level) {
            return LogStep::Skipped;
        }
        let handle = match self.handle {
            HandleState::Unset => {
                return LogStep::NeedsRegistration;
            },
            HandleState::Acquired(h) => h,
            HandleState::Released => {
                proof {
                    assert(false);
                }
                0
            },
        };
        let line = format_record(rec);
        let event_type = event_type_for(rec.level);
        proof {
            lemma_rendered_encodable(*rec);
        }
        let encoded = encode_utf16_nul_terminated(line.as_str());
        let message = encoded.unwrap();
        LogStep::Report(ReportEvent { handle, event_type, category: 0, event_id: 0, message })
    }

    /// There is nothing buffered, so flushing does nothing: the sink is left
    /// exactly as it was, and no failure can arise.
    pub fn flush(&mut self)
        ensures
            *final(self) == *old(self),
    {
    }

    /// Runs the destruction step: hands out the handle to deregister if one
    /// was ever acquired, nothing otherwise, and leaves the sink released so
    /// that a second run hands out nothing.
    pub fn release_handle(&mut self) -> (to_deregister: Option<u64>)
        ensures
            final(self).log_name() == old(self).log_name(),
            final(self).handle_state() == after_release(old(self).handle_state()),
            to_deregister == release_action(old(self).handle_state()),
    {
        let action = match self.handle {
            HandleState::Acquired(h) => Option::Some(h),
            _ => Option::None,
        };
        self.handle = HandleState::Released;
        action
    }
}

/// The one-shot guarantee, seen sequentially: registration is possible only
/// in the unset state, and no state that follows a registration or a release
/// allows another registration. So across any run of the sink the handle is
/// written at most once, and never after release.
pub proof fn lemma_handle_written_at_most_once(st: HandleState, handle: u64)
    ensures
        !registration_allowed(after_registration(handle)),
        !registration_allowed(after_release(st)),
{
}

/// A sink that was never initialized deregisters nothing on destruction.
pub proof fn lemma_release_uninitialized_is_silent()
    ensures
        release_action(HandleState::Unset) is None,
{
}

/// Destruction deregisters exactly once: the first release of an initialized
/// sink hands out its handle, and any release after a release hands out
/// nothing, whatever state the sink was in before.
pub proof fn lemma_release_at_most_once(st: HandleState, handle: u64)
    ensures
        release_action(after_registration(handle)) == Option::Some(handle),
        release_action(after_release(st)) is None,
{
}

} // verus!
