//! Installing the effective level as the process-wide threshold of the
//! `log` facade.
use vstd::prelude::*;
use crate::level::Level;
use crate::resolve::{consistent, resolve, resolved};

verus! {

/// The kind of build the process was made as, which fixes the default level
/// and the ceiling.
#[derive(Clone, Copy, Debug, PartialEq, Eq, Structural)]
pub enum BuildProfile {
    /// A hardened production build: quiet by default, never chatty.
    ProductionHardened,
    /// Any other build: everything is logged unless told otherwise.
    Development,
}

impl BuildProfile {
    /// The level used when no acceptable override is given.
    pub open spec fn default_level(self) -> Level {
        match self {
            BuildProfile::ProductionHardened => Level::Error,
            BuildProfile::Development => Level::Trace,
        }
    }

    /// The most verbose level that an override may select.
    pub open spec fn ceiling(self) -> Level {
        match self {
            BuildProfile::ProductionHardened => Level::Warn,
            BuildProfile::Development => Level::Trace,
        }
    }

    /// The default level and the ceiling of this kind of build.
    pub fn bounds(&self) -> (r: (Level, Level))
        ensures
            r.0 == self.default_level(),
            r.1 == self.ceiling(),
            consistent(r.0, r.1),
    {
        match self {
            BuildProfile::ProductionHardened => (Level::Error, Level::Warn),
            BuildProfile::Development => (Level::Trace, Level::Trace),
        }
    }
}

/// Relies on log::set_max_level: stores the threshold that every later log
/// call of the process is filtered by. Each level maps to the
/// `log::LevelFilter` variant of the same name.
#[verifier::external_body]
fn install_max_level(level: Level) {
    log::set_max_level(match level {
        Level::Off => log::LevelFilter::Off,
        Level::Error => log::LevelFilter::Error,
        Level::Warn => log::LevelFilter::Warn,
        Level::Info => log::LevelFilter::Info,
        Level::Debug => log::LevelFilter::Debug,
        Level::Trace => log::LevelFilter::Trace,
    })
}

/// Resolves the effective level, installs it as the process-wide threshold
/// and returns it.
pub fn set_log_level_or_default(default: Level, max_level: Level, override_str: Option<String>) -> (r: Level)
    requires
        consistent(default, max_level),
    ensures
        r == resolved(default, max_level, override_str.deep_view()),
        r.rank() <= max_level.rank(),
{
    let level = resolve(default, max_level, override_str);
    install_max_level(level);
    level
}

/// Configures the process-wide level for a build of the given kind, with
/// the override text given at run time, if any, and returns that level.
pub fn init_logger(profile: BuildProfile, override_str: Option<String>) -> (r: Level)
    ensures
        r == resolved(profile.default_level(), profile.ceiling(), override_str.deep_view()),
        r.rank() <= profile.ceiling().rank(),
{
    let (default, max_level) = profile.bounds();
    set_log_level_or_default(default, max_level, override_str)
}

} // verus!
