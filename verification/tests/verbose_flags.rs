use kommandozeile::{Global, Local, Scope, Verbose, Verbosity};

const LADDER: [Verbosity; 9] = [
    Verbosity::Off,
    Verbosity::Error,
    Verbosity::Warn,
    Verbosity::CrateInfo,
    Verbosity::CrateDebug,
    Verbosity::CrateTrace,
    Verbosity::InfoCrateTrace,
    Verbosity::DebugCrateTrace,
    Verbosity::Trace,
];

fn rung(v: Verbosity) -> usize {
    LADDER.iter().position(|&l| l == v).unwrap()
}

#[test]
fn no_flags_give_warn() {
    assert_eq!(Verbose::<Local>::new(0, 0).verbosity(), Verbosity::Warn);
    assert_eq!(Verbose::<Global>::default().verbosity(), Verbosity::Warn);
}

#[test]
fn each_verbose_flag_goes_one_rung_up() {
    assert_eq!(Verbose::<Local>::new(1, 0).verbosity(), Verbosity::CrateInfo);
    assert_eq!(Verbose::<Local>::new(2, 0).verbosity(), Verbosity::CrateDebug);
    assert_eq!(Verbose::<Local>::new(3, 0).verbosity(), Verbosity::CrateTrace);
    assert_eq!(Verbose::<Local>::new(4, 0).verbosity(), Verbosity::InfoCrateTrace);
    assert_eq!(Verbose::<Local>::new(5, 0).verbosity(), Verbosity::DebugCrateTrace);
    assert_eq!(Verbose::<Local>::new(6, 0).verbosity(), Verbosity::Trace);
}

#[test]
fn verbose_saturates_at_trace() {
    assert_eq!(Verbose::<Local>::new(7, 0).verbosity(), Verbosity::Trace);
    assert_eq!(Verbose::<Local>::new(255, 0).verbosity(), Verbosity::Trace);
}

#[test]
fn quiet_goes_down_and_saturates_at_off() {
    assert_eq!(Verbose::<Local>::new(0, 1).verbosity(), Verbosity::Error);
    assert_eq!(Verbose::<Local>::new(0, 2).verbosity(), Verbosity::Off);
    assert_eq!(Verbose::<Local>::new(0, 3).verbosity(), Verbosity::Off);
    assert_eq!(Verbose::<Local>::new(0, 255).verbosity(), Verbosity::Off);
}

#[test]
fn value_is_verbose_minus_quiet() {
    assert_eq!(Verbose::<Local>::new(5, 2).verbosity_value(), 3);
    assert_eq!(Verbose::<Local>::new(2, 5).verbosity_value(), -3);
    assert_eq!(Verbose::<Local>::new(255, 0).verbosity_value(), 255);
    assert_eq!(Verbose::<Local>::new(0, 255).verbosity_value(), -255);
}

#[test]
fn balanced_flags_keep_the_default() {
    for d in LADDER {
        assert_eq!(Verbose::<Local>::new(4, 4).verbosity_with_default_level(d), d);
        assert_eq!(Verbose::<Local>::new(0, 0).verbosity_with_default_level(d), d);
    }
}

#[test]
fn other_defaults() {
    assert_eq!(Verbose::<Local>::new(2, 0).verbosity_with_default_level(Verbosity::Off), Verbosity::Warn);
    assert_eq!(Verbose::<Local>::new(0, 1).verbosity_with_default_level(Verbosity::Trace), Verbosity::DebugCrateTrace);
    assert_eq!(Verbose::<Local>::new(1, 0).verbosity_with_default_level(Verbosity::Trace), Verbosity::Trace);
    assert_eq!(Verbose::<Local>::new(0, 9).verbosity_with_default_level(Verbosity::Trace), Verbosity::Off);
}

#[test]
fn more_verbose_never_less_verbose() {
    for d in LADDER {
        for q in 0..12u8 {
            for v in 0..12u8 {
                let a = Verbose::<Local>::new(v, q).verbosity_with_default_level(d);
                let b = Verbose::<Local>::new(v + 1, q).verbosity_with_default_level(d);
                let c = Verbose::<Local>::new(v, q + 1).verbosity_with_default_level(d);
                assert!(rung(a) <= rung(b));
                assert!(rung(c) <= rung(a));
                assert!(rung(b) == (rung(a) + 1).min(8) || rung(d) as isize + (v as isize - q as isize) < 0);
            }
        }
    }
}

#[test]
fn result_is_always_on_the_ladder() {
    for d in LADDER {
        for v in [0u8, 1, 3, 8, 200] {
            for q in [0u8, 1, 3, 8, 200] {
                let r = Verbose::<Local>::new(v, q).verbosity_with_default_level(d);
                assert!(r != Verbosity::Info && r != Verbosity::Debug);
            }
        }
    }
}

#[test]
fn erase_keeps_counts() {
    let g = Verbose::<Global>::new(2, 1);
    let e: Verbose = g.erase();
    assert_eq!(e, Verbose::<Local>::new(2, 1));
    assert_eq!(Verbose::<Global>::new(7, 3).erase(), Verbose::<Local>::new(7, 3));
    assert_eq!(e.verbosity(), g.verbosity());
    assert_eq!(e.verbosity_value(), 1);
}

#[test]
fn copies_are_equal() {
    let a = Verbose::<Local>::new(1, 2);
    let b = a;
    #[allow(clippy::clone_on_copy)]
    let c = a.clone();
    assert_eq!(a, b);
    assert_eq!(a, c);
}

#[test]
fn scope_constants() {
    assert!(!Local::IS_GLOBAL);
    assert!(Global::IS_GLOBAL);
}

#[test]
fn debug_text_shows_only_the_counts() {
    let v = Verbose::<Global>::new(2, 1);
    assert_eq!(format!("{:?}", v), "Verbose { verbose: 2, quiet: 1 }");
    assert_eq!(
        format!("{:#?}", v),
        "Verbose {\n    verbose: 2,\n    quiet: 1,\n}"
    );
}
