use vstd::prelude::*;

use crate::filter::{clamp_rank, filter_name, filter_of_rank, lemma_filter_of_rank_monotonic, rank, VerbosityFilter};
use crate::levels::{filter_of_level, filter_of_level_filter, level_filter_of, level_of};
use crate::log_level::{ErrorLevel, LogLevel};
use log::Level;
use log::LevelFilter;

verus! {

/// The filter that `verbose` uses of `-v` and `quiet` uses of `-q` give on top
/// of the baseline filter `default`: each `-v` moves one step towards
/// `Trace`, each `-q` one step towards `Off`, and the scale stops at both ends.
pub open spec fn filter_for(default: VerbosityFilter, verbose: u8, quiet: u8) -> VerbosityFilter {
    filter_of_rank(rank(default) + verbose - quiet)
}

/// Where the flags stay within the scale, the position reached is the
/// baseline's plus the uses of `-v` minus the uses of `-q`; beyond the ends it
/// stops at `Off` or `Trace`.
pub proof fn lemma_filter_for_rank(default: VerbosityFilter, verbose: u8, quiet: u8)
    ensures
        rank(filter_for(default, verbose, quiet)) == clamp_rank(rank(default) + verbose - quiet),
{
}

/// More uses of `-v` never make the filter less verbose, and more uses of
/// `-q` never make it more verbose.
pub proof fn lemma_filter_for_monotonic(
    default: VerbosityFilter,
    verbose1: u8,
    quiet1: u8,
    verbose2: u8,
    quiet2: u8,
)
    requires
        verbose1 <= verbose2,
        quiet2 <= quiet1,
    ensures
        rank(filter_for(default, verbose1, quiet1)) <= rank(filter_for(default, verbose2, quiet2)),
{
    lemma_filter_of_rank_monotonic(rank(default) + verbose1 - quiet1, rank(default) + verbose2 - quiet2);
}

/// Five more uses of `-v` than of `-q` reach `Trace` from any baseline, and
/// five more uses of `-q` than of `-v` reach `Off`.
pub proof fn lemma_filter_for_saturates(default: VerbosityFilter, verbose: u8, quiet: u8)
    ensures
        verbose >= quiet + 5 ==> filter_for(default, verbose, quiet) == VerbosityFilter::Trace,
        quiet >= verbose + 5 ==> filter_for(default, verbose, quiet) == VerbosityFilter::Off,
{
}

/// Logging flags to `#[command(flatten)]` into your CLI
#[derive(Debug)]
pub struct Verbosity<L: LogLevel = ErrorLevel> {
    verbose: u8,
    quiet: u8,
    phantom: std::marker::PhantomData<L>,
}

impl<L: LogLevel> Verbosity<L> {
    /// How often `--verbose` was given.
    pub closed spec fn verbose_count(&self) -> u8 {
        self.verbose
    }

    /// How often `--quiet` was given.
    pub closed spec fn quiet_count(&self) -> u8 {
        self.quiet
    }

    /// The filter that these flags select.
    pub open spec fn selected_filter(&self) -> VerbosityFilter {
        filter_for(L::default_filter_spec(), self.verbose_count(), self.quiet_count())
    }

    /// Create a new verbosity instance by explicitly setting the values
    pub fn new(verbose: u8, quiet: u8) -> (r: Self)
        ensures
            r.verbose_count() == verbose,
            r.quiet_count() == quiet,
    {
        Verbosity { verbose, quiet, phantom: std::marker::PhantomData }
    }

    /// How often `--verbose` was given.
    pub fn verbose(&self) -> (r: u8)
        ensures
            r == self.verbose_count(),
    {
        self.verbose
    }

    /// How often `--quiet` was given.
    pub fn quiet(&self) -> (r: u8)
        ensures
            r == self.quiet_count(),
    {
        self.quiet
    }

    /// Whether any verbosity flags (either `--verbose` or `--quiet`)
    /// are present on the command line.
    pub fn is_present(&self) -> (r: bool)
        ensures
            r == (self.verbose_count() != 0 || self.quiet_count() != 0),
    {
        self.verbose != 0 || self.quiet != 0
    }

    /// Get the log level.
    ///
    /// `None` means all output is disabled.
    pub fn log_level(&self) -> (r: Option<Level>)
        ensures
            r == level_of(self.selected_filter()),
    {
        self.filter().into()
    }

    /// Get the log level filter.
    pub fn log_level_filter(&self) -> (r: LevelFilter)
        ensures
            r == level_filter_of(self.selected_filter()),
    {
        self.filter().into()
    }

    /// If the user requested complete silence (i.e. not just no-logging).
    pub fn is_silent(&self) -> (r: bool)
        ensures
            r == (self.selected_filter() == VerbosityFilter::Off),
    {
        self.filter() == VerbosityFilter::Off
    }

    /// The name of the selected filter in lower case, as `VerbosityFilter::to_string`
    /// gives it.
    pub fn to_string(&self) -> (r: String)
        ensures
            r@ == filter_name(self.selected_filter()),
    {
        self.filter().to_string()
    }

    /// Gets the filter that should be applied to the logger.
    pub fn filter(&self) -> (r: VerbosityFilter)
        ensures
            r == self.selected_filter(),
    {
        let offset: i16 = self.verbose as i16 - self.quiet as i16;
        L::default_filter().with_offset(offset)
    }
}

/// Without flags, or with as many `-v` as `-q`, the level's baseline filter
/// applies.
pub proof fn lemma_no_net_flags_keep_default<L: LogLevel>(v: Verbosity<L>)
    requires
        v.verbose_count() == v.quiet_count(),
    ensures
        v.selected_filter() == L::default_filter_spec(),
{
}

/// The selected filter is the level's baseline moved one step towards `Trace`
/// for each `-v` and one step towards `Off` for each `-q`, held to the scale
/// from `Off` (position 0) to `Trace` (position 5): it is `Off` exactly when
/// the baseline's position plus the `-v` count minus the `-q` count is at most
/// 0, `Trace` exactly when that sum is at least 5, and otherwise the filter at
/// that position.
pub proof fn lemma_selected_filter_moves_baseline<L: LogLevel>(x: Verbosity<L>)
    ensures
        ({
            let n = rank(L::default_filter_spec()) + x.verbose_count() - x.quiet_count();
            &&& rank(x.selected_filter()) == (if n <= 0 {
                0
            } else if n >= 5 {
                5
            } else {
                n
            })
            &&& (x.selected_filter() == VerbosityFilter::Off) <==> n <= 0
            &&& (x.selected_filter() == VerbosityFilter::Trace) <==> n >= 5
            &&& (0 < n < 5 ==> rank(x.selected_filter()) == n)
        }),
{
}

/// One more `-v` moves the selected filter exactly one step towards `Trace`
/// (staying at `Trace` once there), and one more `-q` exactly one step towards
/// `Off` (staying at `Off` once there), from the same baseline and other count.
pub proof fn lemma_one_more_flag_moves_one_step<L: LogLevel>(x: Verbosity<L>, y: Verbosity<L>)
    ensures
        y.verbose_count() == x.verbose_count() + 1 && y.quiet_count() == x.quiet_count()
            && rank(L::default_filter_spec()) + x.verbose_count() - x.quiet_count() >= 0
            ==> rank(y.selected_filter()) == (if rank(x.selected_filter()) == 5 {
                5
            } else {
                rank(x.selected_filter()) + 1
            }),
        y.quiet_count() == x.quiet_count() + 1 && y.verbose_count() == x.verbose_count()
            && rank(L::default_filter_spec()) + x.verbose_count() - x.quiet_count() <= 5
            ==> rank(y.selected_filter()) == (if rank(x.selected_filter()) == 0 {
                0
            } else {
                rank(x.selected_filter()) - 1
            }),
{
}

/// Silence, no log level and the `Off` level filter go together.
pub proof fn lemma_silent_iff_no_level<L: LogLevel>(v: Verbosity<L>)
    ensures
        (v.selected_filter() == VerbosityFilter::Off) <==> (level_of(v.selected_filter()) is None),
        (v.selected_filter() == VerbosityFilter::Off) <==> (level_filter_of(v.selected_filter())
            == LevelFilter::Off),
{
}

/// The log level and the log level filter each give the filter back.
pub proof fn lemma_levels_give_filter_back<L: LogLevel>(v: Verbosity<L>)
    ensures
        filter_of_level(level_of(v.selected_filter())) == v.selected_filter(),
        filter_of_level_filter(level_filter_of(v.selected_filter())) == v.selected_filter(),
{
}

/// With `ErrorLevel` as baseline, no flag reports errors only, `-q` silences
/// output, and `-v`, `-vv`, `-vvv`, `-vvvv` show warnings, info, debug and
/// trace messages.
pub proof fn lemma_error_level_flags(verbose: u8, quiet: u8)
    ensures
        verbose == 0 && quiet == 0 ==> filter_for(VerbosityFilter::Error, verbose, quiet)
            == VerbosityFilter::Error,
        verbose == 0 && quiet >= 1 ==> filter_for(VerbosityFilter::Error, verbose, quiet)
            == VerbosityFilter::Off,
        verbose == 1 && quiet == 0 ==> filter_for(VerbosityFilter::Error, verbose, quiet)
            == VerbosityFilter::Warn,
        verbose == 2 && quiet == 0 ==> filter_for(VerbosityFilter::Error, verbose, quiet)
            == VerbosityFilter::Info,
        verbose == 3 && quiet == 0 ==> filter_for(VerbosityFilter::Error, verbose, quiet)
            == VerbosityFilter::Debug,
        verbose >= 4 && quiet == 0 ==> filter_for(VerbosityFilter::Error, verbose, quiet)
            == VerbosityFilter::Trace,
{
}

impl<L: LogLevel> Clone for Verbosity<L> {
    fn clone(&self) -> (r: Self)
        ensures
            r == *self,
    {
        Verbosity { verbose: self.verbose, quiet: self.quiet, phantom: std::marker::PhantomData }
    }
}

impl<L: LogLevel> Default for Verbosity<L> {
    fn default() -> (r: Self)
        ensures
            r.verbose_count() == 0,
            r.quiet_count() == 0,
    {
        Verbosity::new(0, 0)
    }
}

} // verus!
