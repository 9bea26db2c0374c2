//! The resolution policy: a default, a ceiling and an optional override.
use vstd::prelude::*;
use crate::level::{Level, level_named, lemma_name_read_back, log_level_from_str};

verus! {

/// A default and a ceiling are consistent when the default is no more
/// verbose than the ceiling.
pub open spec fn consistent(default: Level, max_allowed: Level) -> bool {
    default.rank() <= max_allowed.rank()
}

/// The level chosen when `requested` has already been read: the request
/// wins if it is no more verbose than the ceiling, the default otherwise.
pub open spec fn chosen(default: Level, max_allowed: Level, requested: Option<Level>) -> Level {
    match requested {
        Some(l) => if l.rank() <= max_allowed.rank() {
            l
        } else {
            default
        },
        None => default,
    }
}

/// The effective level for an override given as text: text that names no
/// level counts as no override at all.
pub open spec fn resolved(default: Level, max_allowed: Level, override_str: Option<Seq<char>>) -> Level {
    match override_str {
        Some(s) => chosen(default, max_allowed, level_named(s)),
        None => default,
    }
}

/// Whether a default and a ceiling may be used together.
pub fn config_is_consistent(default: Level, max_allowed: Level) -> (r: bool)
    ensures
        r == consistent(default, max_allowed),
{
    default.at_most(&max_allowed)
}

/// Chooses between an already parsed request and the default.
pub fn choose_level(default: Level, max_allowed: Level, requested: Option<Level>) -> (r: Level)
    requires
        consistent(default, max_allowed),
    ensures
        r == chosen(default, max_allowed, requested),
        r.rank() <= max_allowed.rank(),
{
    match requested {
        Some(l) => if l.at_most(&max_allowed) {
            l
        } else {
            default
        },
        None => default,
    }
}

/// Computes the effective level from the default, the ceiling and the
/// override text, if any. The result is never more verbose than the ceiling.
pub fn resolve(default: Level, max_allowed: Level, override_str: Option<String>) -> (r: Level)
    requires
        consistent(default, max_allowed),
    ensures
        r == resolved(default, max_allowed, override_str.deep_view()),
        r.rank() <= max_allowed.rank(),
{
    match override_str {
        Some(s) => choose_level(default, max_allowed, log_level_from_str(s.as_str())),
        None => default,
    }
}

/// An override naming a level no more verbose than the ceiling is taken as
/// the effective level, whatever the default.
pub proof fn lemma_override_within_ceiling(default: Level, requested: Level, max_allowed: Level)
    requires
        requested.rank() <= max_allowed.rank(),
    ensures
        resolved(default, max_allowed, Some(requested.name())) == requested,
{
    lemma_name_read_back(requested, requested.name());
}

/// An override naming a level more verbose than the ceiling is refused: the
/// effective level is the default.
pub proof fn lemma_override_above_ceiling(default: Level, requested: Level, max_allowed: Level)
    requires
        requested.rank() > max_allowed.rank(),
    ensures
        resolved(default, max_allowed, Some(requested.name())) == default,
{
    lemma_name_read_back(requested, requested.name());
}

/// Override text that names no level is ignored: the effective level is the
/// default, as if no override had been given.
pub proof fn lemma_unrecognized_override(default: Level, max_allowed: Level, s: Seq<char>)
    requires
        level_named(s) is None,
    ensures
        resolved(default, max_allowed, Some(s)) == default,
        resolved(default, max_allowed, Some(s)) == resolved(default, max_allowed, None),
{
}

/// Whatever the override, a consistent configuration never yields a level
/// more verbose than its ceiling, and the result is either the default or
/// the level that the override names.
pub proof fn lemma_never_above_ceiling(default: Level, max_allowed: Level, override_str: Option<Seq<char>>)
    requires
        consistent(default, max_allowed),
    ensures
        resolved(default, max_allowed, override_str).rank() <= max_allowed.rank(),
        resolved(default, max_allowed, override_str) == default || (override_str is Some
            && level_named(override_str->Some_0) == Some(resolved(default, max_allowed, override_str))),
{
}

} // verus!
