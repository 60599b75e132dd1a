//! What the tab of the launcher's own releases shows and lets the user do.
use crate::gui::extra::GuiState;
use crate::self_updater::Release;
use crate::text::same_text;
use vstd::prelude::*;

verus! {

/// The position of the first release of that version, if any.
pub open spec fn first_release_of(releases: Seq<Release>, version: Seq<char>, i: int) -> Option<int>
    decreases releases.len() - i,
{
    if i < 0 || i >= releases.len() {
        None
    } else if releases[i].version@ == version {
        Some(i)
    } else {
        first_release_of(releases, version, i + 1)
    }
}

/// The release whose notes the tab shows: the first of the selected
/// version, or the first release where none is of that version or none
/// was fetched.
pub fn release_index(releases: &Option<Vec<Release>>, selected: &str) -> (r: usize)
    ensures
        r == match *releases {
            Some(v) => match first_release_of(v@, selected@, 0) {
                Some(i) => i,
                None => 0,
            },
            None => 0,
        },
{
    match releases {
        Some(v) => {
            let mut i: usize = 0;
            while i < v.len()
                invariant
                    0 <= i <= v@.len(),
                    *releases == Some(*v),
                    first_release_of(v@, selected@, 0) == first_release_of(v@, selected@, i as int),
                decreases v@.len() - i,
            {
                if same_text(v[i].version.as_str(), selected) {
                    assert(v@[i as int].version@ == selected@);
                    assert(first_release_of(v@, selected@, i as int) == Some(i as int));
                    return i;
                }
                i = i + 1;
            }
            0
        },
        None => 0,
    }
}

/// What stands beside the version picker, and whether its button acts.
#[derive(Clone, Copy, Debug, PartialEq, Eq, Structural)]
pub enum SelfUpdaterAction {
    /// A release was installed: the launcher is to be restarted.
    Restart,
    /// A release is being installed.
    Installing,
    /// No releases were fetched: a button that fetches them.
    Fetch { enabled: bool },
    /// A button that installs the selected release.
    Install { enabled: bool },
}

/// What stands beside the version picker: a note to restart once a release
/// is installed, a note while one is installed; otherwise a button that
/// fetches the releases (acting with a connection while none are being
/// fetched) or, once fetched, one that installs the selected release
/// (acting with a connection when it is not the running version).
pub fn self_updater_action(state: &GuiState, has_releases: bool, can_connect: bool, current_version: &str) -> (r: SelfUpdaterAction)
    ensures
        r == (if state.installed_release {
            SelfUpdaterAction::Restart
        } else if state.installing_release {
            SelfUpdaterAction::Installing
        } else if !has_releases {
            SelfUpdaterAction::Fetch { enabled: can_connect && !state.fetching_releases }
        } else {
            SelfUpdaterAction::Install {
                enabled: state.pick_list_selected_releases@ != current_version@ && can_connect,
            }
        }),
{
    if state.installed_release {
        SelfUpdaterAction::Restart
    } else if state.installing_release {
        SelfUpdaterAction::Installing
    } else if !has_releases {
        SelfUpdaterAction::Fetch { enabled: can_connect && !state.fetching_releases }
    } else {
        SelfUpdaterAction::Install {
            enabled: !same_text(state.pick_list_selected_releases.as_str(), current_version) && can_connect,
        }
    }
}

} // verus!
