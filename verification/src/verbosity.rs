//! Levels of verbosity and the log filter directives they stand for.

use vstd::prelude::*;

verus! {

/// Desired level of verbosity
#[derive(Copy, Clone, Debug, PartialEq, Eq, Structural, PartialOrd, Ord)]
pub enum Verbosity {
    /// No messages
    Off,
    /// error messages of all targets
    Error,
    /// warn messages of all targets
    Warn,
    /// info messages of all targets
    Info,
    /// debug messages of all targets
    Debug,
    /// trace messages of all targets
    Trace,
    /// info messages for the compiled crate
    CrateInfo,
    /// info messages for the compiled crate
    CrateDebug,
    /// trace messages for the compiled crate
    CrateTrace,
    /// info messages for all targets, trace messages for the compiled crate
    InfoCrateTrace,
    /// debug messages for all targets, trace messages for the compiled crate
    DebugCrateTrace,
}

impl Verbosity {
    /// The directive that applies this level to every target alike.
    pub open spec fn filter_for_all(self) -> Seq<char> {
        match self {
            Verbosity::Off => "off"@,
            Verbosity::Error => "error"@,
            Verbosity::Warn => "warn"@,
            Verbosity::Info => "info"@,
            Verbosity::Debug => "debug"@,
            Verbosity::CrateInfo => "info"@,
            Verbosity::CrateDebug => "info"@,
            _ => "trace"@,
        }
    }

    /// Whether the level speaks of the compiled crate by name.
    pub open spec fn names_crate(self) -> bool {
        match self {
            Verbosity::CrateInfo | Verbosity::CrateDebug | Verbosity::CrateTrace
            | Verbosity::InfoCrateTrace | Verbosity::DebugCrateTrace => true,
            _ => false,
        }
    }

    /// For a level that does not name the crate: the directive itself;
    /// for one that does: what follows `<pkg>=`.
    pub open spec fn filter_tail(self) -> Seq<char> {
        match self {
            Verbosity::Off => "off"@,
            Verbosity::Error => "error"@,
            Verbosity::Warn => "warn"@,
            Verbosity::Info => "info"@,
            Verbosity::Debug => "debug"@,
            Verbosity::Trace => "trace"@,
            Verbosity::CrateInfo => "info"@,
            Verbosity::CrateDebug => "info"@,
            Verbosity::CrateTrace => "trace"@,
            Verbosity::InfoCrateTrace => "trace,info"@,
            Verbosity::DebugCrateTrace => "trace,debug"@,
        }
    }

    /// The directive for this level, where the compiled crate is named `pkg`.
    pub open spec fn filter_for_pkg(self, pkg: Seq<char>) -> Seq<char> {
        if self.names_crate() {
            pkg + "="@ + self.filter_tail()
        } else {
            self.filter_tail()
        }
    }

    /// The directive that `as_filter` gives for an optional crate name.
    pub open spec fn filter(self, pkg: Option<Seq<char>>) -> Seq<char> {
        match pkg {
            Some(p) => self.filter_for_pkg(p),
            None => self.filter_for_all(),
        }
    }

    /// The filter directive for this level, for the crate `pkg_name` when one
    /// is given, else for all targets.
    pub fn as_filter(self, pkg_name: Option<&str>) -> (r: String)
        ensures
            r@ == self.filter(match pkg_name {
                Some(p) => Some(p@),
                None => None,
            }),
    {
        match pkg_name {
            Some(pkg_name) => self.as_filter_for_pkg(pkg_name),
            None => String::from_str(self.as_filter_for_all()),
        }
    }

    /// The filter directive for this level, the same for every target.
    pub fn as_filter_for_all(self) -> (r: &'static str)
        ensures
            r@ == self.filter_for_all(),
    {
        match self {
            Verbosity::Off => "off",
            Verbosity::Error => "error",
            Verbosity::Warn => "warn",
            Verbosity::Info => "info",
            Verbosity::Debug => "debug",
            Verbosity::CrateInfo => "info",
            Verbosity::CrateDebug => "info",
            _ => "trace",
        }
    }

    /// The filter directive for this level, where the compiled crate is
    /// named `pkg_name`.
    pub fn as_filter_for_pkg(self, pkg_name: &str) -> (r: String)
        ensures
            r@ == self.filter_for_pkg(pkg_name@),
    {
        match self {
            Verbosity::Off => String::from_str("off"),
            Verbosity::Error => String::from_str("error"),
            Verbosity::Warn => String::from_str("warn"),
            Verbosity::Info => String::from_str("info"),
            Verbosity::Debug => String::from_str("debug"),
            Verbosity::Trace => String::from_str("trace"),
            Verbosity::CrateInfo => crate_directive(pkg_name, "info"),
            Verbosity::CrateDebug => crate_directive(pkg_name, "info"),
            Verbosity::CrateTrace => crate_directive(pkg_name, "trace"),
            Verbosity::InfoCrateTrace => crate_directive(pkg_name, "trace,info"),
            Verbosity::DebugCrateTrace => crate_directive(pkg_name, "trace,debug"),
        }
    }
}

/// `<pkg_name>=<levels>`
fn crate_directive(pkg_name: &str, levels: &str) -> (r: String)
    ensures
        r@ == pkg_name@ + "="@ + levels@,
{
    let mut r = String::from_str(pkg_name);
    r.append("=");
    r.append(levels);
    r
}

/// Law: a level that does not name the crate gives the same directive
/// whatever the crate is called.
pub proof fn lemma_filter_ignores_pkg_name(v: Verbosity, pkg: Seq<char>, other: Seq<char>)
    requires
        !v.names_crate(),
    ensures
        v.filter_for_pkg(pkg) == v.filter_for_pkg(other),
{
}

/// Law: a level that names the crate gives a directive that starts with
/// the crate's name followed by `=`.
pub proof fn lemma_crate_filter_starts_with_pkg(v: Verbosity, pkg: Seq<char>)
    requires
        v.names_crate(),
    ensures
        v.filter_for_pkg(pkg).len() > pkg.len() + 1,
        v.filter_for_pkg(pkg).subrange(0, pkg.len() as int) == pkg,
        v.filter_for_pkg(pkg)[pkg.len() as int] == '=',
{
    reveal_strlit("=");
    reveal_strlit("info");
    reveal_strlit("trace");
    reveal_strlit("trace,info");
    reveal_strlit("trace,debug");
    assert(v.filter_for_pkg(pkg).subrange(0, pkg.len() as int) =~= pkg);
}

/// Law: a level that does not name the crate (`Off`, `Error`, `Warn`,
/// `Info`, `Debug`, `Trace`) gives the same directive with a crate name as
/// without one.
pub proof fn lemma_plain_levels_agree(v: Verbosity, pkg: Seq<char>)
    requires
        !v.names_crate(),
    ensures
        v.filter_for_pkg(pkg) == v.filter_for_all(),
{
}

/// Law: `as_filter` with a crate name gives the crate-named directive, and
/// without one the all-targets directive: it agrees with
/// `as_filter_for_pkg` and with `as_filter_for_all`, for every level and name.
pub proof fn lemma_as_filter_dispatch(v: Verbosity, pkg: Seq<char>)
    ensures
        v.filter(Some(pkg)) == v.filter_for_pkg(pkg),
        v.filter(None) == v.filter_for_all(),
        v.names_crate() ==> v.filter(Some(pkg)).subrange(0, pkg.len() as int) == pkg,
        v.names_crate() ==> v.filter(Some(pkg))[pkg.len() as int] == '=',
{
    lemma_crate_filter_starts_with_pkg_when(v, pkg);
}

proof fn lemma_crate_filter_starts_with_pkg_when(v: Verbosity, pkg: Seq<char>)
    ensures
        v.names_crate() ==> v.filter_for_pkg(pkg).subrange(0, pkg.len() as int) == pkg,
        v.names_crate() ==> v.filter_for_pkg(pkg)[pkg.len() as int] == '=',
{
    if v.names_crate() {
        lemma_crate_filter_starts_with_pkg(v, pkg);
    }
}

/// `pkg + "=" + tail` read back: the part after `pkg` and `=` is `tail`.
proof fn lemma_split_directive(pkg: Seq<char>, tail: Seq<char>)
    ensures
        (pkg + "="@ + tail).len() == pkg.len() + 1 + tail.len(),
        (pkg + "="@ + tail).skip(pkg.len() + 1int) == tail,
{
    reveal_strlit("=");
    assert((pkg + "="@ + tail).skip(pkg.len() + 1int) =~= tail);
}

/// Law: the directive of each level, for every crate name `pkg`: the crate
/// levels give `pkg`, `=` and a tail that the level alone fixes; the
/// others give the level's own name, whatever the crate is called.
pub proof fn lemma_directive_table(pkg: Seq<char>)
    ensures
        Verbosity::Off.filter_for_pkg(pkg) == "off"@,
        Verbosity::Error.filter_for_pkg(pkg) == "error"@,
        Verbosity::Warn.filter_for_pkg(pkg) == "warn"@,
        Verbosity::Info.filter_for_pkg(pkg) == "info"@,
        Verbosity::Debug.filter_for_pkg(pkg) == "debug"@,
        Verbosity::Trace.filter_for_pkg(pkg) == "trace"@,
        Verbosity::CrateInfo.filter_for_pkg(pkg) == pkg + "="@ + "info"@,
        Verbosity::CrateDebug.filter_for_pkg(pkg) == pkg + "="@ + "info"@,
        Verbosity::CrateTrace.filter_for_pkg(pkg) == pkg + "="@ + "trace"@,
        Verbosity::InfoCrateTrace.filter_for_pkg(pkg) == pkg + "="@ + "trace,info"@,
        Verbosity::DebugCrateTrace.filter_for_pkg(pkg) == pkg + "="@ + "trace,debug"@,
{
}

/// Law: the directive of each level for all targets alike.
pub proof fn lemma_all_targets_table()
    ensures
        Verbosity::Off.filter_for_all() == "off"@,
        Verbosity::Error.filter_for_all() == "error"@,
        Verbosity::Warn.filter_for_all() == "warn"@,
        Verbosity::Info.filter_for_all() == "info"@,
        Verbosity::Debug.filter_for_all() == "debug"@,
        Verbosity::Trace.filter_for_all() == "trace"@,
        Verbosity::CrateInfo.filter_for_all() == "info"@,
        Verbosity::CrateDebug.filter_for_all() == "info"@,
        Verbosity::CrateTrace.filter_for_all() == "trace"@,
        Verbosity::InfoCrateTrace.filter_for_all() == "trace"@,
        Verbosity::DebugCrateTrace.filter_for_all() == "trace"@,
{
}

/// Law: for a level that names the crate, what follows `<pkg>=` in its
/// directive is the same whatever the crate is called.
pub proof fn lemma_tail_independent_of_pkg(v: Verbosity, pkg: Seq<char>, other: Seq<char>)
    requires
        v.names_crate(),
    ensures
        v.filter_for_pkg(pkg).len() == pkg.len() + 1 + v.filter_for_pkg(other).len() - other.len() - 1,
        v.filter_for_pkg(pkg).skip(pkg.len() + 1int) == v.filter_for_pkg(other).skip(other.len() + 1int),
{
    lemma_split_directive(pkg, v.filter_tail());
    lemma_split_directive(other, v.filter_tail());
}

} // verus!
