//! What the settings tab lets the user do: which of its buttons act.
use crate::gui::extra::{BuildTypeSettings, Choice};
use crate::package::{Build, Package};
use crate::releases::installed::{selected_by, Installed};
use crate::text::same_text;
use vstd::prelude::*;

verus! {

/// The choice that a setting's flag stands for.
pub fn choice_of(flag: bool) -> (r: Choice)
    ensures
        r == (if flag { Choice::Enable } else { Choice::Disable }),
{
    if flag {
        Choice::Enable
    } else {
        Choice::Disable
    }
}

/// Whether the locations can be changed: not in portable mode, which keeps
/// everything beside the executable.
pub fn locations_changeable(portable: bool) -> (r: bool)
    ensures
        r == !portable,
{
    !portable
}

/// Whether the button that resets a location acts: only where the location
/// is not its default already.
pub fn reset_location_enabled(current: &str, default: &str) -> (r: bool)
    ensures
        r == (current@ != default@),
{
    !same_text(current, default)
}

/// Whether the button that removes saved lists acts: always for all of
/// them, otherwise where the list's file exists.
pub fn remove_databases_enabled(which: BuildTypeSettings, exists: bool) -> (r: bool)
    ensures
        r == (which is All || exists),
{
    matches!(which, BuildTypeSettings::All) || exists
}

/// The lists whose installed packages tell whether the button that removes
/// the packages of `which` acts: the button of the latest patch builds
/// looks at the archived ones.
pub open spec fn packages_looked_at(which: BuildTypeSettings) -> BuildTypeSettings {
    if which is PatchLatest {
        BuildTypeSettings::PatchArchive
    } else {
        which
    }
}

/// Some installed package belongs to the lists that `which` names.
pub open spec fn installed_of(s: Seq<Package>, which: BuildTypeSettings) -> bool {
    exists|i: int| 0 <= i < s.len() && selected_by(which, #[trigger] s[i].build@)
}

/// Whether the package's build belongs to the lists that `which` names.
fn build_selected(which: BuildTypeSettings, b: &Build) -> (r: bool)
    ensures
        r == selected_by(which, b@),
{
    match which {
        BuildTypeSettings::All => true,
        BuildTypeSettings::DailyLatest => matches!(b, Build::DailyLatest(_)),
        BuildTypeSettings::DailyArchive => matches!(b, Build::DailyArchive(_)),
        BuildTypeSettings::ExperimentalLatest => matches!(b, Build::ExperimentalLatest(_)),
        BuildTypeSettings::ExperimentalArchive => matches!(b, Build::ExperimentalArchive(_)),
        BuildTypeSettings::PatchLatest => matches!(b, Build::PatchLatest(_)),
        BuildTypeSettings::PatchArchive => matches!(b, Build::PatchArchive(_)),
        BuildTypeSettings::StableLatest => matches!(b, Build::StableLatest),
        BuildTypeSettings::StableArchive => matches!(b, Build::StableArchive),
        BuildTypeSettings::Lts => matches!(b, Build::Lts),
    }
}

/// Whether the button that removes installed packages acts: always for all
/// of them, otherwise where some package of the lists it looks at (see
/// `packages_looked_at`) is installed.
pub fn remove_packages_enabled(installed: &Installed, which: BuildTypeSettings) -> (r: bool)
    ensures
        r == (which is All || installed_of(installed.0@, packages_looked_at(which))),
{
    if matches!(which, BuildTypeSettings::All) {
        return true;
    }
    let looked_at = if matches!(which, BuildTypeSettings::PatchLatest) {
        BuildTypeSettings::PatchArchive
    } else {
        which
    };
    let mut i: usize = 0;
    while i < installed.0.len()
        invariant
            0 <= i <= installed.0@.len(),
            looked_at == packages_looked_at(which),
            forall|j: int| 0 <= j < i ==> !selected_by(looked_at, #[trigger] installed.0@[j].build@),
        decreases installed.0@.len() - i,
    {
        if build_selected(looked_at, &installed.0[i].build) {
            return true;
        }
        i = i + 1;
    }
    false
}

} // verus!
