//! Backtrace levels, as the `RUST_BACKTRACE` and `RUST_LIB_BACKTRACE`
//! settings spell them.

use vstd::prelude::*;

verus! {

/// How much of a backtrace to capture, in debug builds and in release builds.
#[derive(Copy, Clone, Debug, PartialEq, Eq, Structural)]
pub enum BacktraceLevel {
    DebugFullReleaseOff,
    DebugSimpleReleaseOff,
    Off,
    DebugFullReleaseSimple,
    Simple,
    Full,
}

impl Default for BacktraceLevel {
    fn default() -> (r: Self)
        ensures
            r == BacktraceLevel::DebugFullReleaseOff,
    {
        BacktraceLevel::DebugFullReleaseOff
    }
}

impl BacktraceLevel {
    /// The setting for this level in a debug build (`debug_build`) or a
    /// release build: `"full"`, `"1"` for a simple backtrace, or `"0"` for none.
    pub open spec fn setting(self, debug_build: bool) -> Seq<char> {
        if debug_build {
            match self {
                BacktraceLevel::DebugFullReleaseOff
                | BacktraceLevel::DebugFullReleaseSimple
                | BacktraceLevel::Full => "full"@,
                BacktraceLevel::DebugSimpleReleaseOff | BacktraceLevel::Simple => "1"@,
                BacktraceLevel::Off => "0"@,
            }
        } else {
            match self {
                BacktraceLevel::DebugFullReleaseOff
                | BacktraceLevel::DebugSimpleReleaseOff
                | BacktraceLevel::Off => "0"@,
                BacktraceLevel::DebugFullReleaseSimple | BacktraceLevel::Simple => "1"@,
                BacktraceLevel::Full => "full"@,
            }
        }
    }

    /// The value of `RUST_BACKTRACE` for this level in a debug build
    /// (`debug_build`) or a release build.
    pub fn level(self, debug_build: bool) -> (r: &'static str)
        ensures
            r@ == self.setting(debug_build),
    {
        if debug_build {
            match self {
                BacktraceLevel::DebugFullReleaseOff
                | BacktraceLevel::DebugFullReleaseSimple
                | BacktraceLevel::Full => "full",
                BacktraceLevel::DebugSimpleReleaseOff | BacktraceLevel::Simple => "1",
                BacktraceLevel::Off => "0",
            }
        } else {
            match self {
                BacktraceLevel::DebugFullReleaseOff
                | BacktraceLevel::DebugSimpleReleaseOff
                | BacktraceLevel::Off => "0",
                BacktraceLevel::DebugFullReleaseSimple | BacktraceLevel::Simple => "1",
                BacktraceLevel::Full => "full",
            }
        }
    }
}

/// Whether error reports use the plain theme, given whether ANSI colors
/// reach standard error: plain exactly when they do not.
pub fn plain_report_theme(ansi_color: bool) -> (r: bool)
    ensures
        r == !ansi_color,
{
    !ansi_color
}

/// Law: `Off`, `Simple` and `Full` mean the same in debug and release
/// builds; the default captures full backtraces in debug builds and none
/// in release builds.
pub proof fn lemma_build_independent_levels(level: BacktraceLevel)
    ensures
        level == BacktraceLevel::Off || level == BacktraceLevel::Simple || level == BacktraceLevel::Full
            ==> level.setting(true) == level.setting(false),
        BacktraceLevel::DebugFullReleaseOff.setting(true) == "full"@,
        BacktraceLevel::DebugFullReleaseOff.setting(false) == "0"@,
{
}

} // verus!
