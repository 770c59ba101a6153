use vstd::prelude::*;

verus! {

/// A representation of the log level filter.
///
/// Used to calculate the log level and filter.
#[derive(Debug, Clone, Copy, PartialEq, Eq, Structural)]
pub enum VerbosityFilter {
    Off,
    Error,
    Warn,
    Info,
    Debug,
    Trace,
}

/// `i16::saturating_add` of std: the sum `x + y`, held at `i16::MAX` or
/// `i16::MIN` where it would pass that bound, as std documents it.
pub assume_specification[ <i16>::saturating_add ](x: i16, y: i16) -> (r: i16)
    ensures
        x + y > i16::MAX ==> r == i16::MAX,
        x + y < i16::MIN ==> r == i16::MIN,
        i16::MIN <= x + y <= i16::MAX ==> r == x + y,
;

/// The position of a filter on the scale from `Off` (0) to `Trace` (5).
pub open spec fn rank(f: VerbosityFilter) -> int {
    match f {
        VerbosityFilter::Off => 0,
        VerbosityFilter::Error => 1,
        VerbosityFilter::Warn => 2,
        VerbosityFilter::Info => 3,
        VerbosityFilter::Debug => 4,
        VerbosityFilter::Trace => 5,
    }
}

/// The filter at position `n` of the scale, where every position at or
/// below 0 is `Off` and every position at or above 5 is `Trace`.
pub open spec fn filter_of_rank(n: int) -> VerbosityFilter {
    if n <= 0 {
        VerbosityFilter::Off
    } else if n == 1 {
        VerbosityFilter::Error
    } else if n == 2 {
        VerbosityFilter::Warn
    } else if n == 3 {
        VerbosityFilter::Info
    } else if n == 4 {
        VerbosityFilter::Debug
    } else {
        VerbosityFilter::Trace
    }
}

/// The name of a filter in lower case, as it is shown to users.
pub open spec fn filter_name(f: VerbosityFilter) -> Seq<char> {
    match f {
        VerbosityFilter::Off => "off"@,
        VerbosityFilter::Error => "error"@,
        VerbosityFilter::Warn => "warn"@,
        VerbosityFilter::Info => "info"@,
        VerbosityFilter::Debug => "debug"@,
        VerbosityFilter::Trace => "trace"@,
    }
}

/// The position that `filter_of_rank(n)` takes: `n` held to the scale `0..=5`.
pub open spec fn clamp_rank(n: int) -> int {
    if n <= 0 {
        0
    } else if n >= 5 {
        5
    } else {
        n
    }
}

/// Every filter is found again at its own position on the scale.
pub proof fn lemma_filter_of_rank_of_filter(f: VerbosityFilter)
    ensures
        filter_of_rank(rank(f)) == f,
        0 <= rank(f) <= 5,
{
}

/// Going to position `n` lands on `n` held to the scale `0..=5`.
pub proof fn lemma_rank_of_filter_of_rank(n: int)
    ensures
        rank(filter_of_rank(n)) == clamp_rank(n),
{
}

/// A higher position never gives a less verbose filter.
pub proof fn lemma_filter_of_rank_monotonic(a: int, b: int)
    requires
        a <= b,
    ensures
        rank(filter_of_rank(a)) <= rank(filter_of_rank(b)),
{
}

/// Two filters are the same exactly when they stand at the same position.
pub proof fn lemma_rank_injective(f: VerbosityFilter, g: VerbosityFilter)
    ensures
        (rank(f) == rank(g)) <==> (f == g),
{
}

impl VerbosityFilter {
    /// The name of the filter in lower case: `off`, `error`, `warn`, `info`,
    /// `debug` or `trace`.
    pub fn to_string(&self) -> (r: String)
        ensures
            r@ == filter_name(*self),
    {
        match self {
            VerbosityFilter::Off => "off".to_owned(),
            VerbosityFilter::Error => "error".to_owned(),
            VerbosityFilter::Warn => "warn".to_owned(),
            VerbosityFilter::Info => "info".to_owned(),
            VerbosityFilter::Debug => "debug".to_owned(),
            VerbosityFilter::Trace => "trace".to_owned(),
        }
    }

    /// Apply an offset to the filter level.
    ///
    /// Negative values will decrease the verbosity, while positive values will increase it.
    pub(crate) fn with_offset(&self, offset: i16) -> (r: VerbosityFilter)
        ensures
            r == filter_of_rank(rank(*self) + offset),
    {
        let value: i16 = match self {
            VerbosityFilter::Off => 0,
            VerbosityFilter::Error => 1,
            VerbosityFilter::Warn => 2,
            VerbosityFilter::Info => 3,
            VerbosityFilter::Debug => 4,
            VerbosityFilter::Trace => 5,
        };
        let sum: i16 = value.saturating_add(offset);
        if sum <= 0 {
            VerbosityFilter::Off
        } else if sum == 1 {
            VerbosityFilter::Error
        } else if sum == 2 {
            VerbosityFilter::Warn
        } else if sum == 3 {
            VerbosityFilter::Info
        } else if sum == 4 {
            VerbosityFilter::Debug
        } else {
            VerbosityFilter::Trace
        }
    }
}

} // verus!
