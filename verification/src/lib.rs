//! A logging backend that routes leveled log records into the operating
//! system's centralized event-recording facility under a named event source.
//!
//! The crate is split in two layers. [`sink::Logger`] does everything that
//! can be decided from plain values: the level threshold, the one line
//! rendered for a record, the fixed severity classification, the wide-string
//! encoding, and the handle's acquire-once / release-once life cycle. The
//! installers here govern the other shared piece of state, the process-wide
//! facade registry, modelled explicitly as a [`Facade`] value: a backend is
//! installed at most once, and a second installation is rejected without
//! replacing the first.
//!
//! The facade's real registry lives for the whole process, so the caller
//! that owns the [`Facade`] value must keep it alive as long as logging can
//! happen; a custom-named backend is retained permanently by design.
//!
//! One overlap is kept deliberately rather than resolved: installation
//! raises the facade threshold to `Debug`, which already keeps `Trace`
//! records from reaching the sink, so the sink's own fixed rejection of
//! `Trace` in [`level::enabled_spec`] is redundant in the installed
//! configuration. Both thresholds are stated and proved as they stand.

use vstd::prelude::*;

pub mod level;
pub mod record;
pub mod render;
pub mod sink;

use crate::level::LevelFilter;
use crate::sink::Logger;

verus! {

/// The error of a failed installation: some backend is already installed.
pub struct SetLoggerError;

/// The source name the default backend registers under.
pub open spec fn default_source_name() -> Seq<char> {
    "Rust Application"@
}

/// A model of the process-wide facade registry: the backend installed for
/// the whole process, if any, and the global verbosity threshold.
pub struct Facade {
    backend: Option<Logger>,
    max_level: LevelFilter,
}

impl Facade {
    /// Whether a backend is installed.
    pub closed spec fn is_installed(&self) -> bool {
        self.backend is Some
    }

    /// The installed backend.
    pub closed spec fn backend(&self) -> Logger
        recommends
            self.is_installed(),
    {
        self.backend->0
    }

    /// The global verbosity threshold.
    pub closed spec fn max_level(&self) -> LevelFilter {
        self.max_level
    }

    /// The registry at process start: no backend, everything filtered out.
    pub fn new() -> (facade: Facade)
        ensures
            !facade.is_installed(),
            facade.max_level() == LevelFilter::Off,
    {
        Facade { backend: Option::None, max_level: LevelFilter::Off }
    }

    /// A borrow of the installed backend, to drive its sink.
    pub fn installed_backend(&self) -> (backend: Option<&Logger>)
        ensures
            (backend matches Some(b) ==> self.is_installed() && *b == self.backend()),
            (backend is None ==> !self.is_installed()),
    {
        match &self.backend {
            Option::Some(b) => Option::Some(b),
            Option::None => Option::None,
        }
    }

    /// Whether a backend is installed, for a caller deciding an install.
    pub fn installed(&self) -> (r: bool)
        ensures
            r == self.is_installed(),
    {
        match &self.backend {
            Option::Some(_) => true,
            Option::None => false,
        }
    }
}

/// Holds when `facade` went from `before` to `after` by one successful
/// installation of a fresh backend named `name`: the backend is in place
/// with its handle still unset, and the verbosity threshold was raised to
/// `Debug`.
pub open spec fn installed_fresh(before: Facade, after: Facade, name: Seq<char>) -> bool {
    &&& !before.is_installed()
    &&& after.is_installed()
    &&& after.backend().log_name() == name
    &&& after.backend().handle_state() is Unset
    &&& after.max_level() == LevelFilter::Debug
}

/// Installs the default-named backend, unless one is already installed.
///
/// A second installation never replaces the first: on conflict the registry
/// is left exactly as it was and the error is returned.
pub fn try_init(facade: &mut Facade) -> (r: Result<(), SetLoggerError>)
    ensures
        old(facade).is_installed() ==> (r is Err && *final(facade) == *old(facade)),
        !old(facade).is_installed() ==> (r is Ok && installed_fresh(
            *old(facade),
            *final(facade),
            default_source_name(),
        )),
{
    try_init_with_name(facade, "Rust Application")
}

/// Installs the default-named backend; the caller treats a backend that is
/// already installed as a fatal error, so that case is excluded here.
pub fn init(facade: &mut Facade)
    requires
        !old(facade).is_installed(),
    ensures
        installed_fresh(*old(facade), *final(facade), default_source_name()),
{
    let r = try_init(facade);
    match r {
        Result::Ok(()) => (),
        Result::Err(_) => {
            proof {
                assert(false);
            }
        },
    }
}

/// Installs a backend with a caller-chosen source name, unless one is
/// already installed.
///
/// A second installation never replaces the first: on conflict the registry
/// is left exactly as it was and the error is returned.
pub fn try_init_with_name(facade: &mut Facade, name: &str) -> (r: Result<(), SetLoggerError>)
    ensures
        old(facade).is_installed() ==> (r is Err && *final(facade) == *old(facade)),
        !old(facade).is_installed() ==> (r is Ok && installed_fresh(
            *old(facade),
            *final(facade),
            name@,
        )),
{
    if facade.installed() {
        return Result::Err(SetLoggerError);
    }
    let backend = Logger::new(name);
    facade.backend = Option::Some(backend);
    facade.max_level = LevelFilter::Debug;
    Result::Ok(())
}

/// Installs a backend with a caller-chosen source name; the caller treats a
/// backend that is already installed as a fatal error, so that case is
/// excluded here.
pub fn init_with_name(facade: &mut Facade, name: &str)
    requires
        !old(facade).is_installed(),
    ensures
        installed_fresh(*old(facade), *final(facade), name@),
{
    let r = try_init_with_name(facade, name);
    match r {
        Result::Ok(()) => (),
        Result::Err(_) => {
            proof {
                assert(false);
            }
        },
    }
}

/// After any successful installation the threshold is `Debug`: every level
/// of `Debug` severity or higher is accepted by the backend, and `Trace`
/// alone is rejected.
pub proof fn lemma_installed_threshold(before: Facade, after: Facade, name: Seq<char>, l:
    crate::level::Level)
    requires
        installed_fresh(before, after, name),
    ensures
        after.max_level() == LevelFilter::Debug,
        crate::level::severity(l) >= crate::level::severity(crate::level::Level::Debug)
            ==> crate::level::enabled_spec(l),
        !crate::level::enabled_spec(crate::level::Level::Trace),
{
}

} // verus!
