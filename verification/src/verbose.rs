//! The `-v`/`-q` flags: how often each was given, and the verbosity they
//! select, counted in steps along a fixed ladder of levels.

use crate::verbosity::Verbosity;
use std::marker::PhantomData;
use vstd::prelude::*;

verus! {

/// The flags apply to the subcommand they are given with.
#[derive(Copy, Clone, Debug, Default, PartialEq, Eq)]
pub struct Local;

/// The flags are accepted by every subcommand.
#[derive(Copy, Clone, Debug, Default, PartialEq, Eq)]
pub struct Global;

/// Where the verbosity flags are accepted.
pub trait Scope {
    const IS_GLOBAL: bool;
}

impl Scope for Local {
    const IS_GLOBAL: bool = false;
}

impl Scope for Global {
    const IS_GLOBAL: bool = true;
}

/// The levels that the flags move along, least verbose first.
pub open spec fn ladder() -> Seq<Verbosity> {
    seq![
        Verbosity::Off,
        Verbosity::Error,
        Verbosity::Warn,
        Verbosity::CrateInfo,
        Verbosity::CrateDebug,
        Verbosity::CrateTrace,
        Verbosity::InfoCrateTrace,
        Verbosity::DebugCrateTrace,
        Verbosity::Trace,
    ]
}

/// The index of the top of the ladder.
pub open spec fn top_rung() -> int {
    8
}

/// Where a level stands on the ladder; `-1` for the two levels that are not on it.
pub open spec fn rung(v: Verbosity) -> int {
    match v {
        Verbosity::Off => 0,
        Verbosity::Error => 1,
        Verbosity::Warn => 2,
        Verbosity::CrateInfo => 3,
        Verbosity::CrateDebug => 4,
        Verbosity::CrateTrace => 5,
        Verbosity::InfoCrateTrace => 6,
        Verbosity::DebugCrateTrace => 7,
        Verbosity::Trace => 8,
        Verbosity::Info => -1,
        Verbosity::Debug => -1,
    }
}

/// Whether a level stands on the ladder.
pub open spec fn on_ladder(v: Verbosity) -> bool {
    rung(v) >= 0
}

/// `i`, held within the ladder.
pub open spec fn clamp_rung(i: int) -> int {
    if i < 0 {
        0
    } else if i > top_rung() {
        top_rung()
    } else {
        i
    }
}

/// The level `steps` rungs above `default` (below it where `steps` is
/// negative), stopping at either end of the ladder.
pub open spec fn shifted(default: Verbosity, steps: int) -> Verbosity {
    ladder()[clamp_rung(rung(default) + steps)]
}

/// The rung of a level, or `None` for a level not on the ladder.
fn rung_of(v: Verbosity) -> (r: Option<usize>)
    ensures
        match r {
            Some(i) => on_ladder(v) && i == rung(v),
            None => !on_ladder(v),
        },
{
    match v {
        Verbosity::Off => Some(0),
        Verbosity::Error => Some(1),
        Verbosity::Warn => Some(2),
        Verbosity::CrateInfo => Some(3),
        Verbosity::CrateDebug => Some(4),
        Verbosity::CrateTrace => Some(5),
        Verbosity::InfoCrateTrace => Some(6),
        Verbosity::DebugCrateTrace => Some(7),
        Verbosity::Trace => Some(8),
        Verbosity::Info => None,
        Verbosity::Debug => None,
    }
}

/// The level on rung `i`.
fn at_rung(i: usize) -> (r: Verbosity)
    requires
        i <= top_rung(),
    ensures
        r == ladder()[i as int],
{
    match i {
        0 => Verbosity::Off,
        1 => Verbosity::Error,
        2 => Verbosity::Warn,
        3 => Verbosity::CrateInfo,
        4 => Verbosity::CrateDebug,
        5 => Verbosity::CrateTrace,
        6 => Verbosity::InfoCrateTrace,
        7 => Verbosity::DebugCrateTrace,
        _ => Verbosity::Trace,
    }
}

/// How often `-v` and `-q` were given.
#[derive(PartialEq, Eq)]
pub struct Verbose<S: Scope = Local> {
    /// Print more logs, can be used multiple times
    verbose: u8,
    /// Print less logs, can be used multiple times
    quiet: u8,
    _scope: PhantomData<S>,
}

impl<S: Scope> Verbose<S> {
    /// How often `-v` was given.
    pub closed spec fn verbose_count(self) -> u8 {
        self.verbose
    }

    /// How often `-q` was given.
    pub closed spec fn quiet_count(self) -> u8 {
        self.quiet
    }

    /// Steps up the ladder that the flags ask for (down where negative).
    pub open spec fn steps(self) -> int {
        self.verbose_count() - self.quiet_count()
    }

    /// Flags with `-v` given `verbose` times and `-q` given `quiet` times.
    pub fn new(verbose: u8, quiet: u8) -> (r: Self)
        ensures
            r.verbose_count() == verbose,
            r.quiet_count() == quiet,
    {
        Self { verbose, quiet, _scope: PhantomData }
    }

    /// How often `-v` was given.
    pub fn verbose(&self) -> (r: u8)
        ensures
            r == self.verbose_count(),
    {
        self.verbose
    }

    /// How often `-q` was given.
    pub fn quiet(&self) -> (r: u8)
        ensures
            r == self.quiet_count(),
    {
        self.quiet
    }

    /// The level the flags select, starting from `Warn`.
    pub fn verbosity(self) -> (r: Verbosity)
        ensures
            r == shifted(Verbosity::Warn, self.steps()),
    {
        self.verbosity_with_default_level(Verbosity::Warn)
    }

    /// The level the flags select, starting from `default`: one rung up
    /// for each `-v`, one down for each `-q`, no further than either end.
    pub fn verbosity_with_default_level(self, default: Verbosity) -> (r: Verbosity)
        requires
            on_ladder(default),
        ensures
            r == shifted(default, self.steps()),
    {
        let verbosity = self.verbosity_value();
        let default_pos = match rung_of(default) {
            Some(i) => i,
            None => 0,  // not reached: `default` is on the ladder
        };
        let pos: usize = if verbosity >= 0 {
            let up: usize = verbosity as usize;
            let raised: usize = default_pos + up;
            if raised > 8 { 8 } else { raised }
        } else {
            let down: usize = (0 - verbosity) as usize;
            if down > default_pos { 0 } else { default_pos - down }
        };
        at_rung(pos)
    }

    /// `-v` count minus `-q` count.
    pub fn verbosity_value(self) -> (r: isize)
        ensures
            r == self.steps(),
    {
        (self.verbose as isize) - (self.quiet as isize)
    }

    /// The same counts, accepted where the subcommand is given.
    pub fn erase(self) -> (r: Verbose)
        ensures
            r.verbose_count() == self.verbose_count(),
            r.quiet_count() == self.quiet_count(),
    {
        Verbose { verbose: self.verbose, quiet: self.quiet, _scope: PhantomData }
    }
}

/// A text formatter of std, carried through to the debug output.
#[verifier::external_type_specification]
#[verifier::external_body]
pub struct ExFormatter<'a>(std::fmt::Formatter<'a>);

/// The error that a std formatter reports.
#[verifier::external_type_specification]
#[verifier::external_body]
pub struct ExFmtError(std::fmt::Error);

impl<S: Scope> std::fmt::Debug for Verbose<S> {
    /// Writes the two counts through std's `Formatter::debug_struct`; nothing
    /// is stated of the text.
    #[verifier::external_body]
    fn fmt(&self, f: &mut std::fmt::Formatter<'_>) -> std::fmt::Result {
        f.debug_struct("Verbose").field("verbose", &self.verbose).field("quiet", &self.quiet).finish()
    }
}

impl<S: Scope> Clone for Verbose<S> {
    fn clone(&self) -> (r: Self)
        ensures
            r == *self,
    {
        Verbose { verbose: self.verbose, quiet: self.quiet, _scope: PhantomData }
    }
}

impl<S: Scope> Copy for Verbose<S> {

}

impl<S: Scope> Default for Verbose<S> {
    fn default() -> (r: Self)
        ensures
            r.verbose_count() == 0,
            r.quiet_count() == 0,
    {
        Self::new(0, 0)
    }
}

/// Each rung of the ladder holds the level that `rung` places there.
proof fn lemma_ladder_rungs()
    ensures
        ladder().len() == top_rung() + 1,
        forall|i: int| 0 <= i <= top_rung() ==> rung(#[trigger] ladder()[i]) == i,
{
    assert(rung(ladder()[0]) == 0);
    assert(rung(ladder()[1]) == 1);
    assert(rung(ladder()[2]) == 2);
    assert(rung(ladder()[3]) == 3);
    assert(rung(ladder()[4]) == 4);
    assert(rung(ladder()[5]) == 5);
    assert(rung(ladder()[6]) == 6);
    assert(rung(ladder()[7]) == 7);
    assert(rung(ladder()[8]) == 8);
}

/// Law: whatever the flags, the selected level is on the ladder (never
/// `Info` nor `Debug`), on the rung `default`'s rung plus the steps, held
/// within the ladder.
pub proof fn lemma_shifted_rung(default: Verbosity, steps: int)
    requires
        on_ladder(default),
    ensures
        on_ladder(shifted(default, steps)),
        rung(shifted(default, steps)) == clamp_rung(rung(default) + steps),
{
    lemma_ladder_rungs();
}

/// Law: with as many `-q` as `-v` (none at all, say), the default level is kept.
pub proof fn lemma_balanced_flags_keep_default<S: Scope>(flags: Verbose<S>, default: Verbosity)
    requires
        on_ladder(default),
        flags.verbose_count() == flags.quiet_count(),
    ensures
        shifted(default, flags.steps()) == default,
{
    lemma_ladder_rungs();
    assert(ladder()[rung(default)] == default);
}

/// Law: more `-v` (or fewer `-q`) never selects a less verbose level.
pub proof fn lemma_shift_monotone(default: Verbosity, fewer: int, more: int)
    requires
        on_ladder(default),
        fewer <= more,
    ensures
        rung(shifted(default, fewer)) <= rung(shifted(default, more)),
{
    lemma_shifted_rung(default, fewer);
    lemma_shifted_rung(default, more);
}

/// Law: one more `-v` goes one rung up unless the top is reached; one more
/// `-q` goes one rung down unless `Off` is reached.
pub proof fn lemma_one_step(default: Verbosity, steps: int)
    requires
        on_ladder(default),
        0 <= rung(default) + steps <= top_rung(),
    ensures
        rung(shifted(default, steps + 1)) == if rung(shifted(default, steps)) == top_rung() {
            top_rung()
        } else {
            rung(shifted(default, steps)) + 1
        },
        rung(shifted(default, steps - 1)) == if rung(shifted(default, steps)) == 0 {
            0
        } else {
            rung(shifted(default, steps)) - 1
        },
{
    lemma_shifted_rung(default, steps);
    lemma_shifted_rung(default, steps + 1);
    lemma_shifted_rung(default, steps - 1);
}

/// Law: enough `-v` reach `Trace`, enough `-q` reach `Off`, from any default.
pub proof fn lemma_ends_of_ladder(default: Verbosity, steps: int)
    requires
        on_ladder(default),
    ensures
        steps >= top_rung() ==> shifted(default, steps) == Verbosity::Trace,
        steps <= -top_rung() ==> shifted(default, steps) == Verbosity::Off,
{
    lemma_ladder_rungs();
}

/// Law: erasing the scope keeps the counts, so the same level is selected.
pub proof fn lemma_erase_keeps_level<S: Scope>(flags: Verbose<S>, erased: Verbose, default: Verbosity)
    requires
        erased.verbose_count() == flags.verbose_count(),
        erased.quiet_count() == flags.quiet_count(),
    ensures
        erased.steps() == flags.steps(),
        shifted(default, erased.steps()) == shifted(default, flags.steps()),
{
}

/// Law: flags of one scope are determined by their counts: two with the
/// same `-v` and `-q` counts are equal (so `erase` gives exactly the flags
/// that `new` builds from the same counts).
pub proof fn lemma_equal_counts_equal_flags<S: Scope>(a: Verbose<S>, b: Verbose<S>)
    requires
        a.verbose_count() == b.verbose_count(),
        a.quiet_count() == b.quiet_count(),
    ensures
        a == b,
{
}

} // verus!
