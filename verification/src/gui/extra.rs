//! Small choices and state of the interface.
use vstd::prelude::*;

verus! {

/// The state of the self-updater tab.
pub struct GuiState {
    pub release_versions: Vec<String>,
    pub fetching_releases: bool,
    pub pick_list_selected_releases: String,
    pub installing_release: bool,
    pub installed_release: bool,
}

impl GuiState {
    /// The initial state, with the running version selected.
    pub fn new(current_version: &str) -> (r: GuiState)
        ensures
            r.release_versions@ == Seq::<String>::empty(),
            !r.fetching_releases,
            r.pick_list_selected_releases@ == current_version@,
            !r.installing_release,
            !r.installed_release,
    {
        GuiState {
            release_versions: Vec::new(),
            fetching_releases: false,
            pick_list_selected_releases: String::from_str(current_version),
            installing_release: false,
            installed_release: false,
        }
    }
}

/// A yes-or-no setting.
#[derive(Clone, Copy, Debug, PartialEq, Eq, Structural)]
pub enum Choice {
    Enable,
    Disable,
}

impl Choice {
    /// Both choices, in the order they are offered.
    pub fn all() -> (r: Vec<Choice>)
        ensures
            r@ == seq![Choice::Enable, Choice::Disable],
    {
        vec![Choice::Enable, Choice::Disable]
    }

    /// Whether the choice enables the setting.
    pub fn is_enabled(&self) -> (r: bool)
        ensures
            r == (*self == Choice::Enable),
    {
        match self {
            Choice::Enable => true,
            Choice::Disable => false,
        }
    }
}

/// The release lists that a settings action applies to.
#[derive(Clone, Copy, Debug, PartialEq, Eq, Structural)]
pub enum BuildTypeSettings {
    All,
    DailyLatest,
    DailyArchive,
    ExperimentalLatest,
    ExperimentalArchive,
    PatchLatest,
    PatchArchive,
    StableLatest,
    StableArchive,
    Lts,
}

/// A directory the launcher keeps files in.
#[derive(Clone, Copy, Debug, PartialEq, Eq, Structural)]
pub enum Location {
    Databases,
    Packages,
    Cache,
}

} // verus!
