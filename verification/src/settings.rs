//! The closed catalog of settings and the bit assigned to each.
//!
//! Every setting is of exactly one kind. A *primitive* setting owns one bit of
//! the register. The *composite* setting names the union of two primitives and
//! owns no bit. The *deprecated* setting is another name for its replacement
//! and owns no bit either; the position it once had stays unassigned.

use crate::bits::{lemma_assigned, lemma_or_test, lemma_own_bits};
use vstd::prelude::*;

verus! {

/// A named boolean toggle of a command.
#[derive(Debug, PartialEq, Eq, Structural, Copy, Clone)]
pub enum AppSettings {
    /// Values that are not valid UTF-8 are accepted. On by default.
    AllowInvalidUtf8,
    /// A value may start with a hyphen.
    AllowLeadingHyphen,
    /// A token shaped like a negative number is taken as a value.
    AllowNegativeNumbers,
    /// The positional argument before the last may be left out.
    AllowMissingPositional,
    /// An unknown subcommand is handed on instead of being refused.
    AllowExternalSubcommands,
    /// Any argument given rules out a subcommand.
    ArgsNegateSubcommands,
    /// Help is shown when no argument is given.
    ArgRequiredElseHelp,
    /// Help is written in colour.
    ColoredHelp,
    /// Colour is used when the output is a terminal. On by default.
    ColorAuto,
    /// Colour is always used.
    ColorAlways,
    /// Colour is never used.
    ColorNever,
    /// The usage line names every argument instead of collapsing them.
    DontCollapseArgsInUsage,
    /// Trailing values are not split at delimiters.
    DontDelimitTrailingValues,
    /// There is no `help` subcommand.
    DisableHelpSubcommand,
    /// There is no version flag. Inherited by an invoked subcommand.
    DisableVersion,
    /// There is no help flag.
    DisableHelp,
    /// `DisableHelp` and `DisableVersion` together.
    DisableHelpAndVersion,
    /// Arguments are listed in the order of their declaration.
    DeriveDisplayOrder,
    /// Subcommands show the version of this command. Inherited by an invoked
    /// subcommand.
    GlobalVersion,
    /// The command is left out of help.
    Hidden,
    /// Help does not list the possible values of an argument.
    HidePossibleValuesInHelp,
    /// An unambiguous prefix of a subcommand's name selects it.
    InferSubcommands,
    /// The first token is an argument, not the name of the binary.
    NoBinaryName,
    /// The help of an argument starts on the line after it.
    NextLineHelp,
    /// Values of global arguments are handed down to the subcommands in use.
    PropagateGlobalValuesDown,
    /// A subcommand lifts the requirements of its parent.
    SubcommandsNegateReqs,
    /// A subcommand is required; without one help is shown.
    SubcommandRequiredElseHelp,
    /// Values that are not valid UTF-8 are refused.
    StrictUtf8,
    /// A subcommand is required.
    SubcommandRequired,
    /// The last positional argument takes everything that follows.
    TrailingVarArg,
    /// Flags and options share one section of help.
    UnifiedHelpMessage,
    /// The process waits for a key before it exits on an error.
    WaitOnError,
    /// A positional argument with several values stands before the last one.
    LowIndexMultiplePositional,
    /// Parse state: the end-of-options marker was read.
    TrailingValues,
    /// Parse state: a token shaped like a negative number was taken as a value.
    ValidNegNumFound,
    /// Parse state: this command has received what it inherits.
    Propogated,
    /// Parse state: a value of a known argument was accepted.
    ValidArgFound,
    /// An argument of this command must come last.
    ContainsLast,
    /// Deprecated name of `DisableVersion`.
    VersionlessSubcommands,
}

/// The number of bits in the register.
pub const REGISTER_WIDTH: u64 = 64;

/// The position that the deprecated setting once had. It is assigned to no
/// setting.
pub const RETIRED_BIT: u64 = 4;

/// The bits that the catalog has assigned: positions 0 to 37, without the
/// retired one.
pub const ASSIGNED_BITS: u64 = 0x3F_FFFF_FFEF;

impl AppSettings {
    /// The position of the bit that a primitive setting owns; `None` for the
    /// composite and the deprecated setting.
    pub open spec fn bit(self) -> Option<nat> {
        match self {
            AppSettings::SubcommandsNegateReqs => Some(0),
            AppSettings::SubcommandRequired => Some(1),
            AppSettings::ArgRequiredElseHelp => Some(2),
            AppSettings::GlobalVersion => Some(3),
            AppSettings::UnifiedHelpMessage => Some(5),
            AppSettings::WaitOnError => Some(6),
            AppSettings::SubcommandRequiredElseHelp => Some(7),
            AppSettings::DisableVersion => Some(8),
            AppSettings::Hidden => Some(9),
            AppSettings::TrailingVarArg => Some(10),
            AppSettings::NoBinaryName => Some(11),
            AppSettings::AllowExternalSubcommands => Some(12),
            AppSettings::StrictUtf8 => Some(13),
            AppSettings::AllowInvalidUtf8 => Some(14),
            AppSettings::AllowLeadingHyphen => Some(15),
            AppSettings::HidePossibleValuesInHelp => Some(16),
            AppSettings::NextLineHelp => Some(17),
            AppSettings::DeriveDisplayOrder => Some(18),
            AppSettings::ColoredHelp => Some(19),
            AppSettings::ColorAlways => Some(20),
            AppSettings::ColorAuto => Some(21),
            AppSettings::ColorNever => Some(22),
            AppSettings::DontDelimitTrailingValues => Some(23),
            AppSettings::AllowNegativeNumbers => Some(24),
            AppSettings::LowIndexMultiplePositional => Some(25),
            AppSettings::DisableHelpSubcommand => Some(26),
            AppSettings::DontCollapseArgsInUsage => Some(27),
            AppSettings::ArgsNegateSubcommands => Some(28),
            AppSettings::PropagateGlobalValuesDown => Some(29),
            AppSettings::AllowMissingPositional => Some(30),
            AppSettings::TrailingValues => Some(31),
            AppSettings::ValidNegNumFound => Some(32),
            AppSettings::Propogated => Some(33),
            AppSettings::ValidArgFound => Some(34),
            AppSettings::InferSubcommands => Some(35),
            AppSettings::ContainsLast => Some(36),
            AppSettings::DisableHelp => Some(37),
            AppSettings::DisableHelpAndVersion => None,
            AppSettings::VersionlessSubcommands => None,
        }
    }

    /// A setting that owns a bit of the register.
    pub open spec fn is_primitive(self) -> bool {
        self.bit() is Some
    }

    /// A setting that names the union of several primitives.
    pub open spec fn is_composite(self) -> bool {
        self == AppSettings::DisableHelpAndVersion
    }

    /// A setting that is kept only as another name for its replacement.
    pub open spec fn is_deprecated(self) -> bool {
        self.replacement() is Some
    }

    /// A setting that only the parsing engine uses, and that has no name.
    pub open spec fn is_hidden(self) -> bool {
        self.is_parse_state() || self == AppSettings::ContainsLast
    }

    /// A fact that the parsing engine latches while it reads one command line.
    pub open spec fn is_parse_state(self) -> bool {
        ||| self == AppSettings::ValidArgFound
        ||| self == AppSettings::TrailingValues
        ||| self == AppSettings::ValidNegNumFound
        ||| self == AppSettings::Propogated
    }

    /// What a deprecated setting stands for.
    pub open spec fn replacement(self) -> Option<AppSettings> {
        match self {
            AppSettings::VersionlessSubcommands => Some(AppSettings::DisableVersion),
            _ => None,
        }
    }

    /// The primitive settings that a setting switches: itself for a primitive,
    /// the two parts of the composite, the replacement of the deprecated one.
    pub open spec fn members(self) -> Set<AppSettings> {
        match self {
            AppSettings::DisableHelpAndVersion => set![
                AppSettings::DisableHelp,
                AppSettings::DisableVersion,
            ],
            AppSettings::VersionlessSubcommands => set![AppSettings::DisableVersion],
            _ => set![self],
        }
    }

    /// The register with only the bit of this primitive setting on.
    pub open spec fn own_bit(self) -> u64 {
        match self.bit() {
            Some(i) => 1u64 << i,
            None => 0,
        }
    }

    /// The bit pattern of a setting: the bits of its members.
    pub open spec fn mask(self) -> u64 {
        match self {
            AppSettings::DisableHelpAndVersion => AppSettings::DisableHelp.own_bit()
                | AppSettings::DisableVersion.own_bit(),
            AppSettings::VersionlessSubcommands => AppSettings::DisableVersion.own_bit(),
            _ => self.own_bit(),
        }
    }

    /// The bit pattern of a setting.
    pub fn bits(self) -> (m: u64)
        ensures
            m == self.mask(),
    {
        match self {
            AppSettings::SubcommandsNegateReqs => 1 << 0,
            AppSettings::SubcommandRequired => 1 << 1,
            AppSettings::ArgRequiredElseHelp => 1 << 2,
            AppSettings::GlobalVersion => 1 << 3,
            AppSettings::UnifiedHelpMessage => 1 << 5,
            AppSettings::WaitOnError => 1 << 6,
            AppSettings::SubcommandRequiredElseHelp => 1 << 7,
            AppSettings::DisableVersion => 1 << 8,
            AppSettings::Hidden => 1 << 9,
            AppSettings::TrailingVarArg => 1 << 10,
            AppSettings::NoBinaryName => 1 << 11,
            AppSettings::AllowExternalSubcommands => 1 << 12,
            AppSettings::StrictUtf8 => 1 << 13,
            AppSettings::AllowInvalidUtf8 => 1 << 14,
            AppSettings::AllowLeadingHyphen => 1 << 15,
            AppSettings::HidePossibleValuesInHelp => 1 << 16,
            AppSettings::NextLineHelp => 1 << 17,
            AppSettings::DeriveDisplayOrder => 1 << 18,
            AppSettings::ColoredHelp => 1 << 19,
            AppSettings::ColorAlways => 1 << 20,
            AppSettings::ColorAuto => 1 << 21,
            AppSettings::ColorNever => 1 << 22,
            AppSettings::DontDelimitTrailingValues => 1 << 23,
            AppSettings::AllowNegativeNumbers => 1 << 24,
            AppSettings::LowIndexMultiplePositional => 1 << 25,
            AppSettings::DisableHelpSubcommand => 1 << 26,
            AppSettings::DontCollapseArgsInUsage => 1 << 27,
            AppSettings::ArgsNegateSubcommands => 1 << 28,
            AppSettings::PropagateGlobalValuesDown => 1 << 29,
            AppSettings::AllowMissingPositional => 1 << 30,
            AppSettings::TrailingValues => 1 << 31,
            AppSettings::ValidNegNumFound => 1 << 32,
            AppSettings::Propogated => 1 << 33,
            AppSettings::ValidArgFound => 1 << 34,
            AppSettings::InferSubcommands => 1 << 35,
            AppSettings::ContainsLast => 1 << 36,
            AppSettings::DisableHelp => 1 << 37,
            AppSettings::DisableHelpAndVersion => (1 << 37) | (1 << 8),
            AppSettings::VersionlessSubcommands => 1 << 8,
        }
    }

    /// The setting to use in place of a deprecated one.
    pub fn replaced_by(self) -> (r: Option<AppSettings>)
        ensures
            r == self.replacement(),
    {
        match self {
            AppSettings::VersionlessSubcommands => Some(AppSettings::DisableVersion),
            _ => None,
        }
    }

    /// Every primitive setting has a bit inside the register, which is not
    /// the retired one, and no two primitive settings have the same bit.
    pub proof fn lemma_bits_unique(a: AppSettings, b: AppSettings)
        requires
            a.is_primitive(),
            b.is_primitive(),
        ensures
            a.bit()->0 < REGISTER_WIDTH,
            a.bit()->0 != RETIRED_BIT,
            a.bit() == b.bit() ==> a == b,
    {
    }

    /// The pattern of every setting lies within the assigned bits.
    pub proof fn lemma_mask_assigned(s: AppSettings)
        ensures
            s.mask() & !ASSIGNED_BITS == 0,
    {
        let help = AppSettings::DisableHelp;
        let version = AppSettings::DisableVersion;
        if s.is_primitive() {
            lemma_assigned(s.bit()->0 as u64, 0, 0);
        } else {
            lemma_assigned(version.bit()->0 as u64, 0, 0);
            lemma_assigned(help.bit()->0 as u64, help.own_bit(), version.own_bit());
        }
    }

    /// The bit of a primitive setting `p` is in the pattern of `s` exactly when
    /// `p` is a member of `s`.
    pub proof fn lemma_mask_members(s: AppSettings, p: AppSettings)
        requires
            p.is_primitive(),
        ensures
            (s.mask() & p.mask() != 0) == s.members().contains(p),
    {
        let help = AppSettings::DisableHelp;
        let version = AppSettings::DisableVersion;
        let j: u64 = p.bit()->0 as u64;
        if s.is_primitive() {
            lemma_own_bits(s.bit()->0 as u64, j);
        } else {
            lemma_own_bits(version.bit()->0 as u64, j);
            lemma_own_bits(help.bit()->0 as u64, j);
            lemma_or_test(help.own_bit(), version.own_bit(), p.mask());
        }
    }

    /// A setting is primitive, composite or deprecated, and only one of them. A
    /// primitive setting switches itself alone; the composite switches two or
    /// more primitives; a deprecated setting switches what its replacement
    /// switches, and has the same bit pattern.
    pub proof fn lemma_kinds(s: AppSettings)
        ensures
            s.is_primitive() || s.is_composite() || s.is_deprecated(),
            !(s.is_primitive() && s.is_composite()),
            !(s.is_primitive() && s.is_deprecated()),
            !(s.is_composite() && s.is_deprecated()),
            s.is_hidden() ==> s.is_primitive(),
            s.is_primitive() ==> s.members() == set![s],
            s.is_composite() ==> s.members().len() >= 2,
            s.replacement() matches Some(r) ==> r.is_primitive() && s.members() == r.members()
                && s.mask() == r.mask(),
            forall|p: AppSettings| s.members().contains(p) ==> p.is_primitive(),
    {
        if s.is_composite() {
            let both = set![AppSettings::DisableHelp, AppSettings::DisableVersion];
            assert(both.remove(AppSettings::DisableVersion) =~= set![AppSettings::DisableHelp]);
            assert(both.len() == 2);
        }
    }
}

} // verus!
