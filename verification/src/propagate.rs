//! What an invoked subcommand inherits from the command above it.
//!
//! Two settings are handed down: `GlobalVersion` and `DisableVersion`. Every
//! other setting is local to its command. A command receives what it inherits
//! once; `Propogated` records that it has.

use crate::flags::AppFlags;
use crate::settings::AppSettings;
use vstd::prelude::*;

verus! {

/// The settings that are handed down.
pub open spec fn propagating() -> Set<AppSettings> {
    set![AppSettings::GlobalVersion, AppSettings::DisableVersion]
}

/// The settings of a subcommand after the command above it, with the settings
/// `parent`, has handed down to it: unchanged if it had received them before,
/// else its own with the propagating settings of `parent` and the record.
pub open spec fn inherit(parent: Set<AppSettings>, child: Set<AppSettings>) -> Set<AppSettings> {
    if child.contains(AppSettings::Propogated) {
        child
    } else {
        child.union(parent.intersect(propagating())).insert(AppSettings::Propogated)
    }
}

impl AppFlags {
    /// Hands the propagating settings of this command down to `child`, the
    /// subcommand that the command line has invoked. Nothing that is on in
    /// `child` is switched off, and a second call changes nothing.
    pub fn propagate_to(&self, child: &mut AppFlags)
        ensures
            final(child)@ == inherit(self@, old(child)@),
            old(child)@.contains(AppSettings::Propogated) ==> *final(child) == *old(child),
    {
        if child.is_set(AppSettings::Propogated) {
            return ;
        }
        let mut inherited = AppFlags::empty();
        if self.is_set(AppSettings::GlobalVersion) {
            inherited.set(AppSettings::GlobalVersion);
        }
        if self.is_set(AppSettings::DisableVersion) {
            inherited.set(AppSettings::DisableVersion);
        }
        assert(inherited@ =~= self@.intersect(propagating()));
        *child = *child | inherited;
        child.set(AppSettings::Propogated);
        assert(child@ =~= inherit(self@, old(child)@));
    }
}

/// Handing down never switches a setting of the subcommand off, and it leaves
/// the record on.
pub proof fn lemma_inherit_keeps(parent: Set<AppSettings>, child: Set<AppSettings>)
    ensures
        child.subset_of(inherit(parent, child)),
        inherit(parent, child).contains(AppSettings::Propogated),
{
}

/// A subcommand that has not received its inheritance gets every propagating
/// setting that is on in the command above it.
pub proof fn lemma_inherit_hands_down(
    parent: Set<AppSettings>,
    child: Set<AppSettings>,
    s: AppSettings,
)
    requires
        !child.contains(AppSettings::Propogated),
        propagating().contains(s),
    ensures
        inherit(parent, child).contains(s) == (child.contains(s) || parent.contains(s)),
{
}

/// A setting that is not propagating is local: but for the record, it is on
/// in the subcommand afterwards exactly when it was on before, whatever is on
/// in the command above it.
pub proof fn lemma_inherit_local(parent: Set<AppSettings>, child: Set<AppSettings>, s: AppSettings)
    requires
        !propagating().contains(s),
        s != AppSettings::Propogated,
    ensures
        inherit(parent, child).contains(s) == child.contains(s),
{
}

/// What a subcommand receives depends on the propagating settings of the
/// command above it and on nothing else of it.
pub proof fn lemma_inherit_reads_propagating(
    parent: Set<AppSettings>,
    other: Set<AppSettings>,
    child: Set<AppSettings>,
)
    requires
        parent.intersect(propagating()) == other.intersect(propagating()),
    ensures
        inherit(parent, child) == inherit(other, child),
{
}

/// Handing down a second time, from the same settings or from others, changes
/// nothing.
pub proof fn lemma_inherit_once(
    parent: Set<AppSettings>,
    later: Set<AppSettings>,
    child: Set<AppSettings>,
)
    ensures
        inherit(later, inherit(parent, child)) == inherit(parent, child),
{
}

} // verus!
