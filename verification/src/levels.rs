use vstd::prelude::*;

use crate::filter::VerbosityFilter;
use log::Level;
use log::LevelFilter;

verus! {

/// `log::Level`: a public enum of five unit variants, `Error` to `Trace`.
#[verifier::external_type_specification]
pub struct ExLevel(log::Level);

/// `log::LevelFilter`: a public enum of six unit variants, `Off` to `Trace`.
#[verifier::external_type_specification]
pub struct ExLevelFilter(log::LevelFilter);

/// The `log::LevelFilter` that stands for a filter: the variant of the same name.
pub open spec fn level_filter_of(f: VerbosityFilter) -> LevelFilter {
    match f {
        VerbosityFilter::Off => LevelFilter::Off,
        VerbosityFilter::Error => LevelFilter::Error,
        VerbosityFilter::Warn => LevelFilter::Warn,
        VerbosityFilter::Info => LevelFilter::Info,
        VerbosityFilter::Debug => LevelFilter::Debug,
        VerbosityFilter::Trace => LevelFilter::Trace,
    }
}

/// The filter that stands for a `log::LevelFilter`: the variant of the same name.
pub open spec fn filter_of_level_filter(l: LevelFilter) -> VerbosityFilter {
    match l {
        LevelFilter::Off => VerbosityFilter::Off,
        LevelFilter::Error => VerbosityFilter::Error,
        LevelFilter::Warn => VerbosityFilter::Warn,
        LevelFilter::Info => VerbosityFilter::Info,
        LevelFilter::Debug => VerbosityFilter::Debug,
        LevelFilter::Trace => VerbosityFilter::Trace,
    }
}

/// The log level that a filter lets through at most: `None` for `Off`, else
/// the `log::Level` of the same name.
pub open spec fn level_of(f: VerbosityFilter) -> Option<Level> {
    match f {
        VerbosityFilter::Off => None,
        VerbosityFilter::Error => Some(Level::Error),
        VerbosityFilter::Warn => Some(Level::Warn),
        VerbosityFilter::Info => Some(Level::Info),
        VerbosityFilter::Debug => Some(Level::Debug),
        VerbosityFilter::Trace => Some(Level::Trace),
    }
}

/// The filter that stands for an optional log level: `Off` for `None`, else
/// the variant of the same name.
pub open spec fn filter_of_level(l: Option<Level>) -> VerbosityFilter {
    match l {
        None => VerbosityFilter::Off,
        Some(Level::Error) => VerbosityFilter::Error,
        Some(Level::Warn) => VerbosityFilter::Warn,
        Some(Level::Info) => VerbosityFilter::Info,
        Some(Level::Debug) => VerbosityFilter::Debug,
        Some(Level::Trace) => VerbosityFilter::Trace,
    }
}

/// A filter turned into a `log::LevelFilter` and back is the same filter,
/// and a `log::LevelFilter` turned into a filter and back is the same too.
pub proof fn lemma_level_filter_round_trip(f: VerbosityFilter, l: LevelFilter)
    ensures
        filter_of_level_filter(level_filter_of(f)) == f,
        level_filter_of(filter_of_level_filter(l)) == l,
{
}

/// A filter turned into an optional `log::Level` and back is the same filter,
/// and an optional `log::Level` turned into a filter and back is the same too.
pub proof fn lemma_level_round_trip(f: VerbosityFilter, l: Option<Level>)
    ensures
        filter_of_level(level_of(f)) == f,
        level_of(filter_of_level(l)) == l,
{
}

/// A filter lets no level through exactly when its `log::LevelFilter` is `Off`.
pub proof fn lemma_level_none_iff_off(f: VerbosityFilter)
    ensures
        (level_of(f) is None) <==> (level_filter_of(f) == LevelFilter::Off),
        (level_of(f) is None) <==> (f == VerbosityFilter::Off),
{
}

impl From<VerbosityFilter> for LevelFilter {
    fn from(filter: VerbosityFilter) -> (r: LevelFilter) {
        match filter {
            VerbosityFilter::Off => LevelFilter::Off,
            VerbosityFilter::Error => LevelFilter::Error,
            VerbosityFilter::Warn => LevelFilter::Warn,
            VerbosityFilter::Info => LevelFilter::Info,
            VerbosityFilter::Debug => LevelFilter::Debug,
            VerbosityFilter::Trace => LevelFilter::Trace,
        }
    }
}

impl vstd::std_specs::convert::FromSpecImpl<VerbosityFilter> for LevelFilter {
    open spec fn obeys_from_spec() -> bool {
        true
    }

    open spec fn from_spec(filter: VerbosityFilter) -> LevelFilter {
        level_filter_of(filter)
    }
}

impl From<LevelFilter> for VerbosityFilter {
    fn from(level: LevelFilter) -> (r: VerbosityFilter) {
        match level {
            LevelFilter::Off => VerbosityFilter::Off,
            LevelFilter::Error => VerbosityFilter::Error,
            LevelFilter::Warn => VerbosityFilter::Warn,
            LevelFilter::Info => VerbosityFilter::Info,
            LevelFilter::Debug => VerbosityFilter::Debug,
            LevelFilter::Trace => VerbosityFilter::Trace,
        }
    }
}

impl vstd::std_specs::convert::FromSpecImpl<LevelFilter> for VerbosityFilter {
    open spec fn obeys_from_spec() -> bool {
        true
    }

    open spec fn from_spec(level: LevelFilter) -> VerbosityFilter {
        filter_of_level_filter(level)
    }
}

impl From<VerbosityFilter> for Option<Level> {
    fn from(filter: VerbosityFilter) -> (r: Option<Level>) {
        match filter {
            VerbosityFilter::Off => None,
            VerbosityFilter::Error => Some(Level::Error),
            VerbosityFilter::Warn => Some(Level::Warn),
            VerbosityFilter::Info => Some(Level::Info),
            VerbosityFilter::Debug => Some(Level::Debug),
            VerbosityFilter::Trace => Some(Level::Trace),
        }
    }
}

impl vstd::std_specs::convert::FromSpecImpl<VerbosityFilter> for Option<Level> {
    open spec fn obeys_from_spec() -> bool {
        true
    }

    open spec fn from_spec(filter: VerbosityFilter) -> Option<Level> {
        level_of(filter)
    }
}

impl From<Option<Level>> for VerbosityFilter {
    fn from(level: Option<Level>) -> (r: VerbosityFilter) {
        match level {
            None => VerbosityFilter::Off,
            Some(Level::Error) => VerbosityFilter::Error,
            Some(Level::Warn) => VerbosityFilter::Warn,
            Some(Level::Info) => VerbosityFilter::Info,
            Some(Level::Debug) => VerbosityFilter::Debug,
            Some(Level::Trace) => VerbosityFilter::Trace,
        }
    }
}

impl vstd::std_specs::convert::FromSpecImpl<Option<Level>> for VerbosityFilter {
    open spec fn obeys_from_spec() -> bool {
        true
    }

    open spec fn from_spec(level: Option<Level>) -> VerbosityFilter {
        filter_of_level(level)
    }
}

} // verus!
