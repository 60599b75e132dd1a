//! The tabs of the launcher.
pub mod packages;
pub mod recent_files;
pub mod self_updater;
pub mod settings;

use vstd::prelude::*;

verus! {

/// A tab of the launcher's window.
#[derive(Clone, Copy, Debug, PartialEq, Eq, Structural)]
pub enum Tab {
    RecentFiles,
    Packages,
    Settings,
    SelfUpdater,
    About,
}

impl Default for Tab {
    fn default() -> (r: Tab)
        ensures
            r == Tab::Packages,
    {
        Tab::Packages
    }
}

} // verus!
