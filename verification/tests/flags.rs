use app_flags::{AppFlags, AppSettings};

fn primitives() -> Vec<(AppSettings, u32)> {
    vec![
        (AppSettings::SubcommandsNegateReqs, 0),
        (AppSettings::SubcommandRequired, 1),
        (AppSettings::ArgRequiredElseHelp, 2),
        (AppSettings::GlobalVersion, 3),
        (AppSettings::UnifiedHelpMessage, 5),
        (AppSettings::WaitOnError, 6),
        (AppSettings::SubcommandRequiredElseHelp, 7),
        (AppSettings::DisableVersion, 8),
        (AppSettings::Hidden, 9),
        (AppSettings::TrailingVarArg, 10),
        (AppSettings::NoBinaryName, 11),
        (AppSettings::AllowExternalSubcommands, 12),
        (AppSettings::StrictUtf8, 13),
        (AppSettings::AllowInvalidUtf8, 14),
        (AppSettings::AllowLeadingHyphen, 15),
        (AppSettings::HidePossibleValuesInHelp, 16),
        (AppSettings::NextLineHelp, 17),
        (AppSettings::DeriveDisplayOrder, 18),
        (AppSettings::ColoredHelp, 19),
        (AppSettings::ColorAlways, 20),
        (AppSettings::ColorAuto, 21),
        (AppSettings::ColorNever, 22),
        (AppSettings::DontDelimitTrailingValues, 23),
        (AppSettings::AllowNegativeNumbers, 24),
        (AppSettings::LowIndexMultiplePositional, 25),
        (AppSettings::DisableHelpSubcommand, 26),
        (AppSettings::DontCollapseArgsInUsage, 27),
        (AppSettings::ArgsNegateSubcommands, 28),
        (AppSettings::PropagateGlobalValuesDown, 29),
        (AppSettings::AllowMissingPositional, 30),
        (AppSettings::TrailingValues, 31),
        (AppSettings::ValidNegNumFound, 32),
        (AppSettings::Propogated, 33),
        (AppSettings::ValidArgFound, 34),
        (AppSettings::InferSubcommands, 35),
        (AppSettings::ContainsLast, 36),
        (AppSettings::DisableHelp, 37),
    ]
}

fn on_in(flags: &AppFlags) -> Vec<AppSettings> {
    primitives().into_iter().map(|(s, _)| s).filter(|s| flags.is_set(*s)).collect()
}

#[test]
fn new_has_the_two_defaults_and_nothing_else() {
    let flags = AppFlags::new();
    assert_eq!(on_in(&flags), vec![AppSettings::AllowInvalidUtf8, AppSettings::ColorAuto]);
    assert!(flags.is_set(AppSettings::AllowInvalidUtf8));
    assert!(flags.is_set(AppSettings::ColorAuto));
    assert!(!flags.is_set(AppSettings::DisableHelpAndVersion));
    assert!(!flags.is_set(AppSettings::VersionlessSubcommands));
    assert_eq!(AppFlags::default(), flags);
}

#[test]
fn a_new_command_has_no_parse_state() {
    let flags = AppFlags::new();
    assert!(!flags.is_set(AppSettings::ValidArgFound));
    assert!(!flags.is_set(AppSettings::TrailingValues));
    assert!(!flags.is_set(AppSettings::ValidNegNumFound));
    assert!(!flags.is_set(AppSettings::Propogated));
    assert!(!flags.is_set(AppSettings::ContainsLast));
}

#[test]
fn empty_has_nothing_on() {
    let flags = AppFlags::empty();
    assert_eq!(on_in(&flags), Vec::<AppSettings>::new());
    assert_ne!(flags, AppFlags::new());
    let mut cleared = AppFlags::new();
    cleared.unset(AppSettings::AllowInvalidUtf8);
    cleared.unset(AppSettings::ColorAuto);
    assert_eq!(cleared, flags);
}

#[test]
fn bit_patterns_are_the_assigned_positions() {
    for (s, position) in primitives() {
        assert_eq!(s.bits(), 1u64 << position, "{:?}", s);
    }
    assert_eq!(AppSettings::SubcommandsNegateReqs.bits(), 1);
    assert_eq!(AppSettings::AllowInvalidUtf8.bits(), 16_384);
    assert_eq!(AppSettings::ColoredHelp.bits(), 524_288);
    assert_eq!(AppSettings::ColorAuto.bits(), 2_097_152);
    assert_eq!(AppSettings::TrailingValues.bits(), 2_147_483_648);
    assert_eq!(AppSettings::ValidNegNumFound.bits(), 4_294_967_296);
    assert_eq!(AppSettings::DisableHelp.bits(), 137_438_953_472);
}

#[test]
fn bit_positions_are_pairwise_distinct_and_within_the_register() {
    let all = primitives();
    assert_eq!(all.len(), 37);
    for (i, (a, pa)) in all.iter().enumerate() {
        assert!(*pa < 64);
        assert_eq!(a.bits().count_ones(), 1);
        for (b, pb) in all.iter().skip(i + 1) {
            assert_ne!(pa, pb);
            assert_eq!(a.bits() & b.bits(), 0, "{:?} {:?}", a, b);
        }
    }
    // Position 4 is retired.
    for (s, _) in all {
        assert_eq!(s.bits() & (1 << 4), 0);
    }
}

#[test]
fn composite_and_deprecated_patterns_are_those_of_their_members() {
    assert_eq!(
        AppSettings::DisableHelpAndVersion.bits(),
        AppSettings::DisableHelp.bits() | AppSettings::DisableVersion.bits()
    );
    assert_eq!(AppSettings::DisableHelpAndVersion.bits(), 137_438_953_728);
    assert_eq!(AppSettings::VersionlessSubcommands.bits(), AppSettings::DisableVersion.bits());
    assert_eq!(AppSettings::VersionlessSubcommands.bits(), 256);
}

#[test]
fn set_then_is_set_then_unset() {
    for (s, _) in primitives() {
        let mut flags = AppFlags::empty();
        assert!(!flags.is_set(s));
        flags.set(s);
        assert!(flags.is_set(s), "{:?}", s);
        assert_eq!(on_in(&flags), vec![s]);
        flags.unset(s);
        assert!(!flags.is_set(s), "{:?}", s);
        assert_eq!(flags, AppFlags::empty());
    }
}

#[test]
fn set_and_unset_leave_the_other_settings_alone() {
    for (s, _) in primitives() {
        let mut flags = AppFlags::new();
        flags.set(s);
        for (other, _) in primitives() {
            let expected = other == s
                || other == AppSettings::AllowInvalidUtf8
                || other == AppSettings::ColorAuto;
            assert_eq!(flags.is_set(other), expected, "{:?} {:?}", s, other);
        }
        flags.unset(s);
        for (other, _) in primitives() {
            let expected = other != s
                && (other == AppSettings::AllowInvalidUtf8 || other == AppSettings::ColorAuto);
            assert_eq!(flags.is_set(other), expected, "{:?} {:?}", s, other);
        }
    }
}

#[test]
fn set_twice_is_set_once() {
    let mut once = AppFlags::new();
    once.set(AppSettings::ColoredHelp);
    let mut twice = once;
    twice.set(AppSettings::ColoredHelp);
    assert_eq!(once, twice);
    let mut defaults = AppFlags::new();
    defaults.set(AppSettings::ColorAuto);
    assert_eq!(defaults, AppFlags::new());
}

#[test]
fn unset_of_a_clear_setting_changes_nothing() {
    let mut flags = AppFlags::new();
    flags.unset(AppSettings::ColoredHelp);
    assert_eq!(flags, AppFlags::new());
    flags.unset(AppSettings::DisableHelpAndVersion);
    assert_eq!(flags, AppFlags::new());
    flags.unset(AppSettings::VersionlessSubcommands);
    assert_eq!(flags, AppFlags::new());
    let mut twice = AppFlags::new();
    twice.unset(AppSettings::ColorAuto);
    let once = twice;
    twice.unset(AppSettings::ColorAuto);
    assert_eq!(once, twice);
}

#[test]
fn composite_switches_both_members() {
    let mut flags = AppFlags::new();
    flags.set(AppSettings::DisableHelpAndVersion);
    assert!(flags.is_set(AppSettings::DisableHelp));
    assert!(flags.is_set(AppSettings::DisableVersion));
    assert!(flags.is_set(AppSettings::DisableHelpAndVersion));
    assert_eq!(
        on_in(&flags),
        vec![
            AppSettings::DisableVersion,
            AppSettings::AllowInvalidUtf8,
            AppSettings::ColorAuto,
            AppSettings::DisableHelp,
        ]
    );
    let mut by_parts = AppFlags::new();
    by_parts.set(AppSettings::DisableHelp);
    assert!(!by_parts.is_set(AppSettings::DisableHelpAndVersion));
    by_parts.set(AppSettings::DisableVersion);
    assert!(by_parts.is_set(AppSettings::DisableHelpAndVersion));
    assert_eq!(by_parts, flags);
    flags.unset(AppSettings::DisableHelpAndVersion);
    assert!(!flags.is_set(AppSettings::DisableHelp));
    assert!(!flags.is_set(AppSettings::DisableVersion));
    assert_eq!(flags, AppFlags::new());
}

#[test]
fn composite_is_off_when_one_member_is_off() {
    let mut flags = AppFlags::empty();
    flags.set(AppSettings::DisableHelpAndVersion);
    flags.unset(AppSettings::DisableHelp);
    assert!(!flags.is_set(AppSettings::DisableHelpAndVersion));
    assert!(flags.is_set(AppSettings::DisableVersion));
    flags.unset(AppSettings::DisableHelpAndVersion);
    assert_eq!(flags, AppFlags::empty());
}

#[test]
fn deprecated_setting_switches_its_replacement() {
    let mut flags = AppFlags::new();
    flags.set(AppSettings::VersionlessSubcommands);
    assert!(flags.is_set(AppSettings::DisableVersion));
    assert!(flags.is_set(AppSettings::VersionlessSubcommands));
    let mut direct = AppFlags::new();
    direct.set(AppSettings::DisableVersion);
    assert_eq!(flags, direct);
    flags.unset(AppSettings::VersionlessSubcommands);
    assert!(!flags.is_set(AppSettings::DisableVersion));
    assert_eq!(flags, AppFlags::new());
}

#[test]
fn union_has_on_what_is_on_in_either() {
    let mut a = AppFlags::empty();
    a.set(AppSettings::ColoredHelp);
    a.set(AppSettings::Hidden);
    let mut b = AppFlags::empty();
    b.set(AppSettings::Hidden);
    b.set(AppSettings::DisableHelp);
    let u = a | b;
    assert_eq!(
        on_in(&u),
        vec![AppSettings::Hidden, AppSettings::ColoredHelp, AppSettings::DisableHelp]
    );
    assert_eq!(a.union(b), u);
    assert_eq!(b.union(a), u);
    assert_eq!(a.union(AppFlags::empty()), a);
    // The operands are values of their own and stay as they were.
    assert_eq!(on_in(&a), vec![AppSettings::Hidden, AppSettings::ColoredHelp]);
    assert_eq!(on_in(&b), vec![AppSettings::Hidden, AppSettings::DisableHelp]);
}

#[test]
fn union_is_commutative_and_associative_with_empty_as_identity() {
    let mut a = AppFlags::new();
    a.set(AppSettings::ColoredHelp);
    let mut b = AppFlags::empty();
    b.set(AppSettings::DisableHelpAndVersion);
    b.set(AppSettings::TrailingValues);
    let mut c = AppFlags::empty();
    c.set(AppSettings::GlobalVersion);
    c.set(AppSettings::ColoredHelp);
    assert_eq!(a | b, b | a);
    assert_eq!(a | c, c | a);
    assert_eq!((a | b) | c, a | (b | c));
    assert_eq!(a | AppFlags::empty(), a);
    assert_eq!(AppFlags::empty() | a, a);
    assert_eq!(AppFlags::empty() | AppFlags::empty(), AppFlags::empty());
    assert_eq!(a | a, a);
    assert_ne!(a | b, a);
}

#[test]
fn equal_settings_are_equal_registers() {
    let mut a = AppFlags::empty();
    a.set(AppSettings::ColorAuto);
    a.set(AppSettings::AllowInvalidUtf8);
    assert_eq!(a, AppFlags::new());
    let mut b = AppFlags::new();
    b.set(AppSettings::NoBinaryName);
    assert_ne!(b, AppFlags::new());
    b.unset(AppSettings::NoBinaryName);
    assert_eq!(b, AppFlags::new());
}

#[test]
fn reset_clears_the_parse_state_only() {
    let mut flags = AppFlags::new();
    flags.set(AppSettings::ColoredHelp);
    flags.set(AppSettings::ContainsLast);
    let configured = flags;
    flags.set(AppSettings::ValidArgFound);
    flags.set(AppSettings::TrailingValues);
    flags.set(AppSettings::ValidNegNumFound);
    flags.set(AppSettings::Propogated);
    assert_ne!(flags, configured);
    flags.reset_parse_state();
    assert_eq!(flags, configured);
    assert!(flags.is_set(AppSettings::ContainsLast));
    flags.reset_parse_state();
    assert_eq!(flags, configured);
}

#[test]
fn parse_state_stays_on_while_other_settings_change() {
    let mut flags = AppFlags::new();
    flags.set(AppSettings::TrailingValues);
    flags.set(AppSettings::ValidArgFound);
    flags.set(AppSettings::ColoredHelp);
    flags.unset(AppSettings::ColorAuto);
    flags.set(AppSettings::DisableHelpAndVersion);
    let merged = flags | AppFlags::new();
    assert!(flags.is_set(AppSettings::TrailingValues));
    assert!(flags.is_set(AppSettings::ValidArgFound));
    assert!(merged.is_set(AppSettings::TrailingValues));
    assert!(merged.is_set(AppSettings::ValidArgFound));
}
