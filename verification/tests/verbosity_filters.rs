use kommandozeile::Verbosity;

#[test]
fn filter_for_all_targets() {
    assert_eq!(Verbosity::Off.as_filter_for_all(), "off");
    assert_eq!(Verbosity::Error.as_filter_for_all(), "error");
    assert_eq!(Verbosity::Warn.as_filter_for_all(), "warn");
    assert_eq!(Verbosity::CrateInfo.as_filter_for_all(), "info");
    assert_eq!(Verbosity::CrateDebug.as_filter_for_all(), "info");
    assert_eq!(Verbosity::Info.as_filter_for_all(), "info");
    assert_eq!(Verbosity::Debug.as_filter_for_all(), "debug");
    assert_eq!(Verbosity::Trace.as_filter_for_all(), "trace");
    assert_eq!(Verbosity::CrateTrace.as_filter_for_all(), "trace");
    assert_eq!(Verbosity::InfoCrateTrace.as_filter_for_all(), "trace");
    assert_eq!(Verbosity::DebugCrateTrace.as_filter_for_all(), "trace");
}

#[test]
fn filter_for_a_package() {
    assert_eq!(Verbosity::Off.as_filter_for_pkg("app"), "off");
    assert_eq!(Verbosity::Error.as_filter_for_pkg("app"), "error");
    assert_eq!(Verbosity::Warn.as_filter_for_pkg("app"), "warn");
    assert_eq!(Verbosity::Info.as_filter_for_pkg("app"), "info");
    assert_eq!(Verbosity::Debug.as_filter_for_pkg("app"), "debug");
    assert_eq!(Verbosity::Trace.as_filter_for_pkg("app"), "trace");
    assert_eq!(Verbosity::CrateInfo.as_filter_for_pkg("app"), "app=info");
    assert_eq!(Verbosity::CrateDebug.as_filter_for_pkg("app"), "app=info");
    assert_eq!(Verbosity::CrateTrace.as_filter_for_pkg("app"), "app=trace");
    assert_eq!(Verbosity::InfoCrateTrace.as_filter_for_pkg("app"), "app=trace,info");
    assert_eq!(Verbosity::DebugCrateTrace.as_filter_for_pkg("app"), "app=trace,debug");
}

#[test]
fn as_filter_picks_by_package_name() {
    assert_eq!(Verbosity::CrateDebug.as_filter(Some("my_tool")), "my_tool=info");
    assert_eq!(Verbosity::CrateDebug.as_filter(None), "info");
    assert_eq!(Verbosity::Info.as_filter(Some("my_tool")), "info");
    assert_eq!(Verbosity::Info.as_filter(None), "info");
    assert_eq!(Verbosity::Debug.as_filter(Some("my_tool")), "debug");
    assert_eq!(Verbosity::Debug.as_filter(None), "debug");
}

#[test]
fn plain_levels_ignore_package_name() {
    for v in [
        Verbosity::Off,
        Verbosity::Error,
        Verbosity::Warn,
        Verbosity::Info,
        Verbosity::Debug,
        Verbosity::Trace,
    ] {
        assert_eq!(v.as_filter_for_pkg("a"), v.as_filter_for_pkg("other"));
        assert_eq!(v.as_filter_for_pkg("a"), v.as_filter_for_all());
    }
}

#[test]
fn crate_levels_start_with_package_name() {
    for v in [
        Verbosity::CrateInfo,
        Verbosity::CrateDebug,
        Verbosity::CrateTrace,
        Verbosity::InfoCrateTrace,
        Verbosity::DebugCrateTrace,
    ] {
        let f = v.as_filter_for_pkg("pkg-name");
        assert!(f.starts_with("pkg-name="));
        assert!(f.len() > "pkg-name=".len());
    }
}

#[test]
fn empty_package_name() {
    assert_eq!(Verbosity::CrateTrace.as_filter_for_pkg(""), "=trace");
}

#[test]
fn levels_are_ordered_as_declared() {
    assert!(Verbosity::Off < Verbosity::Error);
    assert!(Verbosity::Trace < Verbosity::CrateInfo);
    assert!(Verbosity::InfoCrateTrace < Verbosity::DebugCrateTrace);
}
