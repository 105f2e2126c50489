//! The bit register of one command and its primitive operations.
//!
//! A register is modelled by the set of the primitive settings that are on.
//! Every operation is stated over that set; the register never holds a bit
//! that the catalog has not assigned, so that two registers with the same set
//! are the same value.

use crate::bits::{
    lemma_all_of, lemma_assigned, lemma_clear_test, lemma_one_of, lemma_or_laws, lemma_or_test,
};
use crate::settings::{AppSettings, ASSIGNED_BITS};
use std::ops::BitOr;
use vstd::prelude::*;

verus! {

/// The settings of one command, one bit for each primitive setting.
#[derive(Debug, PartialEq, Eq, Structural, Copy, Clone)]
pub struct AppFlags {
    bits: u64,
}

impl View for AppFlags {
    type V = Set<AppSettings>;

    /// The primitive settings that are on.
    closed spec fn view(&self) -> Set<AppSettings> {
        Set::new(|s: AppSettings| s.is_primitive() && self.bits & s.mask() != 0)
    }
}

/// The settings that are on in a new command.
pub open spec fn default_settings() -> Set<AppSettings> {
    set![AppSettings::AllowInvalidUtf8, AppSettings::ColorAuto]
}

/// The facts that the parsing engine latches while it reads one command line.
pub open spec fn parse_state() -> Set<AppSettings> {
    Set::new(|s: AppSettings| s.is_parse_state())
}

/// Two registers with the same view agree on the bit of every primitive.
proof fn lemma_agree(a: AppFlags, b: AppFlags, p: AppSettings, i: u64)
    requires
        a@ == b@,
        p.bit() == Some(i as nat),
    ensures
        (a.bits & (1u64 << i) != 0) == (b.bits & (1u64 << i) != 0),
{
    a.lemma_on(p);
    b.lemma_on(p);
}

impl AppFlags {
    /// The register holds assigned bits only.
    #[verifier::type_invariant]
    pub closed spec fn wf(self) -> bool {
        self.bits & !ASSIGNED_BITS == 0
    }

    /// A primitive setting is in the view when its bit is on.
    proof fn lemma_on(self, p: AppSettings)
        requires
            p.is_primitive(),
        ensures
            self@.contains(p) == (self.bits & p.own_bit() != 0),
    {
    }

    /// `s` is on: every member of `s` is on.
    pub open spec fn has(self, s: AppSettings) -> bool {
        s.members().subset_of(self@)
    }

    /// The register with every bit off.
    pub closed spec fn spec_empty() -> AppFlags {
        AppFlags { bits: 0 }
    }

    /// The bitwise union of two registers.
    pub closed spec fn spec_union(self, other: AppFlags) -> AppFlags {
        AppFlags { bits: self.bits | other.bits }
    }

    /// The settings of a new command: the two defaults and nothing else.
    pub fn new() -> (r: AppFlags)
        ensures
            r@ == default_settings(),
    {
        AppFlags::default()
    }

    /// The register with every setting off.
    pub fn empty() -> (r: AppFlags)
        ensures
            r == AppFlags::spec_empty(),
            r@ == Set::<AppSettings>::empty(),
    {
        proof {
            lemma_assigned(0, 0, 0);
        }
        let r = AppFlags { bits: 0 };
        proof {
            AppFlags::lemma_empty_view();
        }
        r
    }

    /// The union of two registers: on is what is on in either.
    pub fn union(self, other: AppFlags) -> (r: AppFlags)
        ensures
            r == self.spec_union(other),
            r@ == self@.union(other@),
    {
        proof {
            use_type_invariant(&self);
            use_type_invariant(&other);
            AppFlags::lemma_union_view(self, other);
        }
        AppFlags { bits: self.bits | other.bits }
    }

    /// Whether `s` is on. The composite is on when both of its parts are, the
    /// deprecated setting when its replacement is.
    pub fn is_set(&self, s: AppSettings) -> (r: bool)
        ensures
            r == self.has(s),
            s.is_primitive() ==> r == self@.contains(s),
    {
        let m: u64 = s.bits();
        proof {
            let help = AppSettings::DisableHelp;
            let version = AppSettings::DisableVersion;
            AppSettings::lemma_kinds(s);
            self.lemma_on(help);
            self.lemma_on(version);
            lemma_one_of(self.bits, help.bit()->0 as u64);
            lemma_one_of(self.bits, version.bit()->0 as u64);
            if s.is_composite() {
                lemma_all_of(self.bits, help.own_bit(), version.own_bit());
            } else if s.is_primitive() {
                self.lemma_on(s);
                lemma_one_of(self.bits, s.bit()->0 as u64);
            }
        }
        self.bits & m == m
    }

    /// Switches `s` on: its members are added, nothing else changes. Where `s`
    /// is on already, the register stays as it is.
    pub fn set(&mut self, s: AppSettings)
        ensures
            final(self)@ == old(self)@.union(s.members()),
            old(self).has(s) ==> *final(self) == *old(self),
    {
        let m: u64 = s.bits();
        proof {
            use_type_invariant(&*self);
            AppSettings::lemma_mask_assigned(s);
            lemma_assigned(0, self.bits, m);
        }
        self.bits = self.bits | m;
        proof {
            AppSettings::lemma_kinds(s);
            assert forall|p: AppSettings| #[trigger]
                self@.contains(p) == old(self)@.union(s.members()).contains(p) by {
                if p.is_primitive() {
                    lemma_or_test(old(self).bits, m, p.mask());
                    AppSettings::lemma_mask_members(s, p);
                }
            }
            assert(self@ =~= old(self)@.union(s.members()));
            if old(self).has(s) {
                assert(self@ =~= old(self)@);
                AppFlags::lemma_view_injective(*self, *old(self));
            }
        }
    }

    /// Switches `s` off: its members are removed, nothing else changes. Where
    /// no member of `s` is on, the register stays as it is.
    pub fn unset(&mut self, s: AppSettings)
        ensures
            final(self)@ == old(self)@.difference(s.members()),
            old(self)@.disjoint(s.members()) ==> *final(self) == *old(self),
    {
        let m: u64 = s.bits();
        proof {
            use_type_invariant(&*self);
            lemma_assigned(0, self.bits, m);
        }
        self.bits = self.bits & !m;
        proof {
            AppSettings::lemma_kinds(s);
            assert forall|p: AppSettings| #[trigger]
                self@.contains(p) == old(self)@.difference(s.members()).contains(p) by {
                if p.is_primitive() {
                    lemma_clear_test(old(self).bits, m, p.bit()->0 as u64);
                    AppSettings::lemma_mask_members(s, p);
                }
            }
            assert(self@ =~= old(self)@.difference(s.members()));
            if old(self)@.disjoint(s.members()) {
                assert(self@ =~= old(self)@);
                AppFlags::lemma_view_injective(*self, *old(self));
            }
        }
    }

    /// Clears the parse state, for a command that is to read another command
    /// line. What the author has configured stays.
    pub fn reset_parse_state(&mut self)
        ensures
            final(self)@ == old(self)@.difference(parse_state()),
    {
        self.unset(AppSettings::ValidArgFound);
        self.unset(AppSettings::TrailingValues);
        self.unset(AppSettings::ValidNegNumFound);
        self.unset(AppSettings::Propogated);
        assert(self@ =~= old(self)@.difference(parse_state()));
    }

    /// Only primitive settings are ever on: the composite and the deprecated
    /// setting are stored as their members. A primitive setting is on when
    /// its one member is.
    pub proof fn lemma_view_primitive(flags: AppFlags, s: AppSettings)
        ensures
            flags@.contains(s) ==> s.is_primitive(),
            s.is_primitive() ==> flags.has(s) == flags@.contains(s),
    {
        assert(s.is_primitive() ==> s.members().contains(s));
    }

    /// No primitive setting is on in the empty register.
    pub proof fn lemma_empty_view()
        ensures
            AppFlags::spec_empty()@ == Set::<AppSettings>::empty(),
            AppFlags::spec_empty().wf(),
    {
        lemma_assigned(0, 0, 0);
        assert forall|p: AppSettings| !(#[trigger] AppFlags::spec_empty()@.contains(p)) by {
            lemma_or_laws(p.mask(), 0, 0);
        }
        assert(AppFlags::spec_empty()@ =~= Set::<AppSettings>::empty());
    }

    /// The union of two registers has on what is on in either, and holds
    /// assigned bits only when both do.
    pub proof fn lemma_union_view(a: AppFlags, b: AppFlags)
        ensures
            a.spec_union(b)@ == a@.union(b@),
            a.wf() && b.wf() ==> a.spec_union(b).wf(),
    {
        lemma_assigned(0, a.bits, b.bits);
        assert forall|p: AppSettings| #[trigger]
            a.spec_union(b)@.contains(p) == a@.union(b@).contains(p) by {
            lemma_or_test(a.bits, b.bits, p.mask());
        }
        assert(a.spec_union(b)@ =~= a@.union(b@));
    }

    /// Union is commutative and associative, the empty register is its
    /// identity on either side, and the union of a register with itself is
    /// that register.
    pub proof fn lemma_union_laws(a: AppFlags, b: AppFlags, c: AppFlags)
        ensures
            a.spec_union(b) == b.spec_union(a),
            a.spec_union(b).spec_union(c) == a.spec_union(b.spec_union(c)),
            a.spec_union(AppFlags::spec_empty()) == a,
            AppFlags::spec_empty().spec_union(a) == a,
            a.spec_union(a) == a,
    {
        lemma_or_laws(a.bits, b.bits, c.bits);
        lemma_or_laws(b.bits, c.bits, a.bits);
    }

    /// A register is determined by the settings that are on in it: equality
    /// of registers, which compares bit patterns, is equality of their views.
    pub proof fn lemma_view_injective(a: AppFlags, b: AppFlags)
        requires
            a.wf(),
            b.wf(),
            a@ == b@,
        ensures
            a == b,
    {
        lemma_agree(a, b, AppSettings::SubcommandsNegateReqs, 0);
        lemma_agree(a, b, AppSettings::SubcommandRequired, 1);
        lemma_agree(a, b, AppSettings::ArgRequiredElseHelp, 2);
        lemma_agree(a, b, AppSettings::GlobalVersion, 3);
        lemma_agree(a, b, AppSettings::UnifiedHelpMessage, 5);
        lemma_agree(a, b, AppSettings::WaitOnError, 6);
        lemma_agree(a, b, AppSettings::SubcommandRequiredElseHelp, 7);
        lemma_agree(a, b, AppSettings::DisableVersion, 8);
        lemma_agree(a, b, AppSettings::Hidden, 9);
        lemma_agree(a, b, AppSettings::TrailingVarArg, 10);
        lemma_agree(a, b, AppSettings::NoBinaryName, 11);
        lemma_agree(a, b, AppSettings::AllowExternalSubcommands, 12);
        lemma_agree(a, b, AppSettings::StrictUtf8, 13);
        lemma_agree(a, b, AppSettings::AllowInvalidUtf8, 14);
        lemma_agree(a, b, AppSettings::AllowLeadingHyphen, 15);
        lemma_agree(a, b, AppSettings::HidePossibleValuesInHelp, 16);
        lemma_agree(a, b, AppSettings::NextLineHelp, 17);
        lemma_agree(a, b, AppSettings::DeriveDisplayOrder, 18);
        lemma_agree(a, b, AppSettings::ColoredHelp, 19);
        lemma_agree(a, b, AppSettings::ColorAlways, 20);
        lemma_agree(a, b, AppSettings::ColorAuto, 21);
        lemma_agree(a, b, AppSettings::ColorNever, 22);
        lemma_agree(a, b, AppSettings::DontDelimitTrailingValues, 23);
        lemma_agree(a, b, AppSettings::AllowNegativeNumbers, 24);
        lemma_agree(a, b, AppSettings::LowIndexMultiplePositional, 25);
        lemma_agree(a, b, AppSettings::DisableHelpSubcommand, 26);
        lemma_agree(a, b, AppSettings::DontCollapseArgsInUsage, 27);
        lemma_agree(a, b, AppSettings::ArgsNegateSubcommands, 28);
        lemma_agree(a, b, AppSettings::PropagateGlobalValuesDown, 29);
        lemma_agree(a, b, AppSettings::AllowMissingPositional, 30);
        lemma_agree(a, b, AppSettings::TrailingValues, 31);
        lemma_agree(a, b, AppSettings::ValidNegNumFound, 32);
        lemma_agree(a, b, AppSettings::Propogated, 33);
        lemma_agree(a, b, AppSettings::ValidArgFound, 34);
        lemma_agree(a, b, AppSettings::InferSubcommands, 35);
        lemma_agree(a, b, AppSettings::ContainsLast, 36);
        lemma_agree(a, b, AppSettings::DisableHelp, 37);
        let x: u64 = a.bits;
        let y: u64 = b.bits;
        assert(x == y) by (bit_vector)
            requires
                x & !ASSIGNED_BITS == 0,
                y & !ASSIGNED_BITS == 0,
                (x & (1u64 << 0) != 0) == (y & (1u64 << 0) != 0),
                (x & (1u64 << 1) != 0) == (y & (1u64 << 1) != 0),
                (x & (1u64 << 2) != 0) == (y & (1u64 << 2) != 0),
                (x & (1u64 << 3) != 0) == (y & (1u64 << 3) != 0),
                (x & (1u64 << 5) != 0) == (y & (1u64 << 5) != 0),
                (x & (1u64 << 6) != 0) == (y & (1u64 << 6) != 0),
                (x & (1u64 << 7) != 0) == (y & (1u64 << 7) != 0),
                (x & (1u64 << 8) != 0) == (y & (1u64 << 8) != 0),
                (x & (1u64 << 9) != 0) == (y & (1u64 << 9) != 0),
                (x & (1u64 << 10) != 0) == (y & (1u64 << 10) != 0),
                (x & (1u64 << 11) != 0) == (y & (1u64 << 11) != 0),
                (x & (1u64 << 12) != 0) == (y & (1u64 << 12) != 0),
                (x & (1u64 << 13) != 0) == (y & (1u64 << 13) != 0),
                (x & (1u64 << 14) != 0) == (y & (1u64 << 14) != 0),
                (x & (1u64 << 15) != 0) == (y & (1u64 << 15) != 0),
                (x & (1u64 << 16) != 0) == (y & (1u64 << 16) != 0),
                (x & (1u64 << 17) != 0) == (y & (1u64 << 17) != 0),
                (x & (1u64 << 18) != 0) == (y & (1u64 << 18) != 0),
                (x & (1u64 << 19) != 0) == (y & (1u64 << 19) != 0),
                (x & (1u64 << 20) != 0) == (y & (1u64 << 20) != 0),
                (x & (1u64 << 21) != 0) == (y & (1u64 << 21) != 0),
                (x & (1u64 << 22) != 0) == (y & (1u64 << 22) != 0),
                (x & (1u64 << 23) != 0) == (y & (1u64 << 23) != 0),
                (x & (1u64 << 24) != 0) == (y & (1u64 << 24) != 0),
                (x & (1u64 << 25) != 0) == (y & (1u64 << 25) != 0),
                (x & (1u64 << 26) != 0) == (y & (1u64 << 26) != 0),
                (x & (1u64 << 27) != 0) == (y & (1u64 << 27) != 0),
                (x & (1u64 << 28) != 0) == (y & (1u64 << 28) != 0),
                (x & (1u64 << 29) != 0) == (y & (1u64 << 29) != 0),
                (x & (1u64 << 30) != 0) == (y & (1u64 << 30) != 0),
                (x & (1u64 << 31) != 0) == (y & (1u64 << 31) != 0),
                (x & (1u64 << 32) != 0) == (y & (1u64 << 32) != 0),
                (x & (1u64 << 33) != 0) == (y & (1u64 << 33) != 0),
                (x & (1u64 << 34) != 0) == (y & (1u64 << 34) != 0),
                (x & (1u64 << 35) != 0) == (y & (1u64 << 35) != 0),
                (x & (1u64 << 36) != 0) == (y & (1u64 << 36) != 0),
                (x & (1u64 << 37) != 0) == (y & (1u64 << 37) != 0),
        ;
    }

    /// After `set(s)` the setting `s` is on; after `unset(s)` it is off again.
    pub proof fn lemma_set_then_unset(before: AppFlags, on: AppFlags, off: AppFlags, s: AppSettings)
        requires
            on@ == before@.union(s.members()),
            off@ == on@.difference(s.members()),
        ensures
            on.has(s),
            !off.has(s),
    {
        AppSettings::lemma_kinds(s);
        if s.is_composite() {
            assert(s.members().contains(AppSettings::DisableHelp));
        } else if s.is_deprecated() {
            assert(s.members().contains(AppSettings::DisableVersion));
        } else {
            assert(s.members().contains(s));
        }
    }

    /// Switching a setting on switches each of its members on, so that the
    /// composite switches both of its parts on; switching it off switches
    /// each of them off.
    pub proof fn lemma_set_members(
        before: AppFlags,
        on: AppFlags,
        off: AppFlags,
        s: AppSettings,
        part: AppSettings,
    )
        requires
            s.members().contains(part),
            on@ == before@.union(s.members()),
            off@ == before@.difference(s.members()),
        ensures
            part.is_primitive(),
            on.has(part),
            !off.has(part),
    {
        AppSettings::lemma_kinds(s);
        assert(part.members().contains(part));
    }

    /// Switching a setting on that is on already, or off when none of its
    /// members is on, leaves the register as it was.
    pub proof fn lemma_set_unset_idle(before: AppFlags, after: AppFlags, s: AppSettings)
        requires
            before.wf(),
            after.wf(),
            ({
                ||| before.has(s) && after@ == before@.union(s.members())
                ||| before@.disjoint(s.members()) && after@ == before@.difference(s.members())
            }),
        ensures
            after == before,
    {
        assert(after@ =~= before@);
        AppFlags::lemma_view_injective(after, before);
    }
}

impl Default for AppFlags {
    /// The settings of a new command.
    fn default() -> (r: AppFlags)
        ensures
            r@ == default_settings(),
    {
        let mut r = AppFlags::empty();
        r.set(AppSettings::AllowInvalidUtf8);
        r.set(AppSettings::ColorAuto);
        assert(r@ =~= default_settings());
        r
    }
}

impl BitOr for AppFlags {
    type Output = AppFlags;

    /// `a | b` is the union of `a` and `b`.
    fn bitor(self, rhs: AppFlags) -> (r: AppFlags)
        ensures
            r@ == self@.union(rhs@),
    {
        self.union(rhs)
    }
}

impl vstd::std_specs::ops::BitOrSpecImpl for AppFlags {
    open spec fn obeys_bitor_spec() -> bool {
        true
    }

    open spec fn bitor_req(self, rhs: AppFlags) -> bool {
        true
    }

    open spec fn bitor_spec(self, rhs: AppFlags) -> AppFlags {
        self.spec_union(rhs)
    }
}

} // verus!
