//! The launcher's window as a state machine: each message changes the state
//! and yields the effects that the caller carries out (saving, reading the
//! disk, the network, dialogs), in order.
use crate::gui::controls::Controls;
use crate::gui::extra::{BuildTypeSettings, Choice, GuiState, Location};
use crate::gui::filters::{every_kind, Filters};
use crate::gui::package::{package_updated, PackageCommand, PackageMessage};
use crate::gui::sort_by::SortBy;
use crate::gui::style::Theme;
use crate::gui::tabs::recent_files::{RecentFile, RecentFileMessage, unique_paths};
use crate::gui::tabs::Tab;
use crate::package::{same_package, Package};
use crate::paths::{file_name, file_name_of};
use crate::releases::installed::newest_first;
use crate::releases::{
    all_listed, list_kind, list_kind_of, list_of, merged, synced_releases, views, DailyArchive, DailyLatest,
    ExperimentalArchive, ExperimentalLatest, ListKind, Lts, PatchArchive, PatchLatest, ReleaseList,
    Releases, StableArchive, StableLatest,
};
use crate::self_updater::Release;
use crate::settings::{changed_minutes, no_duplicates, ModifierKey, Settings};
use crate::sorting::{contains_package, holds};
use vstd::prelude::*;

verus! {

broadcast use vstd::seq_lib::group_to_multiset_ensures;

/// The directories that the launcher keeps its files in by default.
pub struct ProjectDirs {
    pub config: String,
    pub data_local: String,
    pub cache: String,
}

/// The state of the launcher's window.
pub struct Gui {
    pub releases: Releases,
    /// All packages of all lists, merged by name.
    pub packages: Vec<Package>,
    /// The packages being installed.
    pub installing: Vec<Package>,
    /// The file to open with a package, if one was chosen.
    pub file_path: Option<String>,
    /// The recently opened files, newest first.
    pub recent_files: Vec<RecentFile>,
    pub settings: Settings,
    pub dirs: ProjectDirs,
    pub state: GuiState,
    pub controls: Controls,
    pub self_releases: Option<Vec<Release>>,
    /// A fetch of packages is under way.
    pub fetching: bool,
    /// An installation is under way.
    pub installing_any: bool,
}

/// What happens in the window, or what outside work reports.
pub enum Message {
    PackageMessage((usize, PackageMessage)),
    RecentFileMessage((String, RecentFileMessage)),
    Bookmark(Package),
    /// Whether the package can be downloaded, and whether that was asked to
    /// install it; `None` where the server could not be reached.
    CheckAvailability(Option<(bool, bool, Package)>),
    InstallPackage(Package),
    CancelInstall(Package),
    PackageInstalled(Package),
    PackageRemoved(Package),
    OpenBlender(String),
    OpenBlenderWithFile(String),
    SelectFile,
    /// The file chosen in the file dialog.
    FileSelected(String),
    OpenBrowser(String),
    CheckForUpdates,
    UpdatesChecked((bool, DailyLatest, ExperimentalLatest, PatchLatest, StableLatest, Lts)),
    FetchAll,
    AllFetched(
        (
            bool,
            DailyLatest,
            DailyArchive,
            ExperimentalLatest,
            ExperimentalArchive,
            PatchLatest,
            PatchArchive,
            StableLatest,
            StableArchive,
            Lts,
        ),
    ),
    FetchDailyLatest,
    DailyLatestFetched((bool, DailyLatest)),
    FetchDailyArchive,
    DailyArchiveFetched((bool, DailyArchive)),
    FetchExperimentalLatest,
    ExperimentalLatestFetched((bool, ExperimentalLatest)),
    FetchExperimentalArchive,
    ExperimentalArchiveFetched((bool, ExperimentalArchive)),
    FetchPatchLatest,
    PatchLatestFetched((bool, PatchLatest)),
    FetchPatchArchive,
    PatchArchiveFetched((bool, PatchArchive)),
    FetchStableLatest,
    StableLatestFetched((bool, StableLatest)),
    FetchStableArchive,
    StableArchiveFetched((bool, StableArchive)),
    FetchLts,
    LtsFetched((bool, Lts)),
    FilterUpdatesChanged(bool),
    FilterBookmarksChanged(bool),
    FilterInstalledChanged(bool),
    FilterAllChanged(bool),
    FilterDailyLatestChanged(bool),
    FilterDailyArchiveChanged(bool),
    FilterExperimentalLatestChanged(bool),
    FilterExperimentalArchiveChanged(bool),
    FilterPatchLatestChanged(bool),
    FilterPatchArchiveChanged(bool),
    FilterStableLatestChanged(bool),
    FilterStableArchiveChanged(bool),
    FilterLtsChanged(bool),
    SortingChanged(SortBy),
    TabChanged(Tab),
    BypassLauncher(Choice),
    ModifierKey(ModifierKey),
    UseLatestAsDefault(Choice),
    CheckUpdatesAtLaunch(Choice),
    MinutesBetweenUpdatesChanged(i64),
    UpdateDailyLatest(Choice),
    UpdateExperimentalLatest(Choice),
    UpdatePatchLatest(Choice),
    UpdateStableLatest(Choice),
    UpdateLts(Choice),
    ThemeChanged(Theme),
    ChangeLocation(Location),
    /// The directory chosen in the directory dialog for the location.
    LocationChosen((Location, String)),
    ResetLocation(Location),
    RemoveDatabases(BuildTypeSettings),
    /// The saved list of that kind was deleted.
    DatabaseRemoved(ListKind),
    RemovePackages(BuildTypeSettings),
    RemoveCache,
    SelfUpdater(Choice),
    CheckSelfUpdatesAtLaunch(Choice),
    FetchSelfReleases,
    PopulateSelfReleases(Option<Vec<Release>>),
    PickListVersionSelected(String),
    ChangeVersion,
    VersionChanged(()),
    CheckConnection,
    ConnectionChecked(()),
}

/// Outside work that follows a message.
pub enum Effect {
    /// Write the settings.
    SaveSettings,
    /// Read the installed packages, then give them to `Gui::sync`.
    Sync,
    /// Read the installed packages, then give them to `Gui::installed_changed`.
    SyncInstalled,
    /// What acting on a package asks for.
    Package(PackageCommand),
    /// Ask the server whether the package can be downloaded, then report it
    /// with `Message::CheckAvailability`.
    CheckAvailability { for_install: bool, package: Package },
    /// Report `Message::InstallPackage` with the package.
    InstallPackage(Package),
    /// Write the list of that kind.
    SaveDatabase(ListKind),
    /// Show the text in a dialog.
    ShowMessage(String),
    /// Start the package, with the file if there is one, and quit.
    OpenBlender { name: String, file: Option<String> },
    /// Let the user choose a file, then report `Message::FileSelected`.
    SelectFile,
    /// Open the address in the browser.
    OpenBrowser(String),
    /// Look for new packages in these lists, then report `Message::UpdatesChecked`.
    CheckForUpdates((DailyLatest, ExperimentalLatest, PatchLatest, StableLatest, Lts)),
    /// Fetch all these lists again, then report `Message::AllFetched`.
    CheckAll(
        (
            DailyLatest,
            DailyArchive,
            ExperimentalLatest,
            ExperimentalArchive,
            PatchLatest,
            PatchArchive,
            StableLatest,
            StableArchive,
            Lts,
        ),
    ),
    /// Fetch the list of that kind again, then report it fetched.
    Fetch((ListKind, ReleaseList)),
    /// Let the user choose a directory, then report `Message::LocationChosen`.
    ChooseDirectory(Location),
    /// Delete the saved lists of those kinds that exist, reporting each
    /// with `Message::DatabaseRemoved`.
    RemoveDatabases(BuildTypeSettings),
    /// Delete the files of these installed packages.
    RemovePackages(Vec<Package>),
    /// Delete the directory itself, with all that it holds.
    RemoveDirectory(String),
    /// Empty the cache directory.
    RemoveCache,
    /// Fetch the launcher's releases, then report `Message::PopulateSelfReleases`.
    FetchSelfReleases,
    /// Install that release of the launcher, then report `Message::VersionChanged`.
    ChangeSelfVersion { releases: Vec<Release>, version: String },
    /// Check the connection to the servers, then report `Message::ConnectionChecked`.
    CheckConnection,
}

/// The filters after a message that only changes them, or `None` for
/// another message.
pub open spec fn filter_changed(f: Filters, m: Message) -> Option<Filters> {
    match m {
        Message::FilterUpdatesChanged(c) => Some(Filters { updates: c, ..f }),
        Message::FilterBookmarksChanged(c) => Some(Filters { bookmarks: c, ..f }),
        Message::FilterInstalledChanged(c) => Some(Filters { installed: c, ..f }),
        Message::FilterAllChanged(c) => Some(
            Filters {
                all: c,
                daily_latest: c,
                daily_archive: c,
                experimental_latest: c,
                experimental_archive: c,
                patch_latest: c,
                patch_archive: c,
                stable_latest: c,
                stable_archive: c,
                lts: c,
                ..f
            },
        ),
        Message::FilterDailyLatestChanged(c) => Some(with_all(Filters { daily_latest: c, ..f })),
        Message::FilterDailyArchiveChanged(c) => Some(with_all(Filters { daily_archive: c, ..f })),
        Message::FilterExperimentalLatestChanged(c) => Some(with_all(Filters { experimental_latest: c, ..f })),
        Message::FilterExperimentalArchiveChanged(c) => Some(with_all(Filters { experimental_archive: c, ..f })),
        Message::FilterPatchLatestChanged(c) => Some(with_all(Filters { patch_latest: c, ..f })),
        Message::FilterPatchArchiveChanged(c) => Some(with_all(Filters { patch_archive: c, ..f })),
        Message::FilterStableLatestChanged(c) => Some(with_all(Filters { stable_latest: c, ..f })),
        Message::FilterStableArchiveChanged(c) => Some(with_all(Filters { stable_archive: c, ..f })),
        Message::FilterLtsChanged(c) => Some(with_all(Filters { lts: c, ..f })),
        _ => None,
    }
}

/// The settings after a message that only changes how the window looks or
/// starts, or `None` for another message.
pub open spec fn look_changed(s: Settings, m: Message) -> Option<Settings> {
    match m {
        Message::SortingChanged(b) => Some(Settings { sort_by: b, ..s }),
        Message::TabChanged(t) => Some(Settings { tab: t, ..s }),
        Message::BypassLauncher(c) => Some(Settings { bypass_launcher: c == Choice::Enable, ..s }),
        Message::ModifierKey(k) => Some(Settings { modifier_key: k, ..s }),
        Message::ThemeChanged(t) => Some(Settings { theme: t, ..s }),
        _ => None,
    }
}

/// The settings after a message that only changes how updates are looked
/// for, or `None` for another message.
pub open spec fn updating_changed(s: Settings, m: Message) -> Option<Settings> {
    match m {
        Message::UseLatestAsDefault(c) => Some(Settings { use_latest_as_default: c == Choice::Enable, ..s }),
        Message::CheckUpdatesAtLaunch(c) => Some(Settings { check_updates_at_launch: c == Choice::Enable, ..s }),
        Message::MinutesBetweenUpdatesChanged(n) => Some(
            Settings { minutes_between_updates: changed_minutes(s.minutes_between_updates, n), ..s },
        ),
        Message::SelfUpdater(c) => Some(Settings { self_updater: c == Choice::Enable, ..s }),
        Message::CheckSelfUpdatesAtLaunch(c) => Some(Settings { check_self_updates_at_launch: c == Choice::Enable, ..s }),
        _ => None,
    }
}

/// The settings after a message that only changes which latest lists are
/// followed for updates, or `None` for another message.
pub open spec fn followed_changed(s: Settings, m: Message) -> Option<Settings> {
    match m {
        Message::UpdateDailyLatest(c) => Some(Settings { update_daily_latest: c == Choice::Enable, ..s }),
        Message::UpdateExperimentalLatest(c) => Some(Settings { update_experimental_latest: c == Choice::Enable, ..s }),
        Message::UpdatePatchLatest(c) => Some(Settings { update_patch_latest: c == Choice::Enable, ..s }),
        Message::UpdateStableLatest(c) => Some(Settings { update_stable_latest: c == Choice::Enable, ..s }),
        Message::UpdateLts(c) => Some(Settings { update_lts: c == Choice::Enable, ..s }),
        _ => None,
    }
}

/// The settings after a message that only changes a setting other than the
/// filters, or `None` for another message.
pub open spec fn choice_changed(s: Settings, m: Message) -> Option<Settings> {
    match look_changed(s, m) {
        Some(t) => Some(t),
        None => match updating_changed(s, m) {
            Some(t) => Some(t),
            None => followed_changed(s, m),
        },
    }
}

/// The settings after a message that only changes them, or `None` for
/// another message.
pub open spec fn setting_changed(s: Settings, m: Message) -> Option<Settings> {
    match filter_changed(s.filters, m) {
        Some(f) => Some(Settings { filters: f, ..s }),
        None => choice_changed(s, m),
    }
}

/// The filters with "all" set where every kind of build is shown.
pub open spec fn with_all(f: Filters) -> Filters {
    Filters { all: every_kind(f), ..f }
}

/// A change of which latest lists are followed for updates, after which
/// the lists are synced again.
pub open spec fn resyncs(m: Message) -> bool {
    ||| m is UpdateDailyLatest
    ||| m is UpdateExperimentalLatest
    ||| m is UpdatePatchLatest
    ||| m is UpdateStableLatest
    ||| m is UpdateLts
}

/// The filters with "all" set where every kind of build is shown.
fn filters_with_all(f: Filters) -> (r: Filters)
    ensures
        r == with_all(f),
{
    let mut g = f;
    g.refresh_all();
    g
}

/// The filters after a message that only changes them, or `None`.
#[verifier::rlimit(30)]
fn changed_filters(f: Filters, message: &Message) -> (r: Option<Filters>)
    ensures
        r == filter_changed(f, *message),
{
    match message {
        Message::FilterUpdatesChanged(c) => Some(Filters { updates: *c, ..f }),
        Message::FilterBookmarksChanged(c) => Some(Filters { bookmarks: *c, ..f }),
        Message::FilterInstalledChanged(c) => Some(Filters { installed: *c, ..f }),
        Message::FilterAllChanged(c) => {
            let mut g = f;
            g.set_all(*c);
            Some(g)
        },
        Message::FilterDailyLatestChanged(c) => Some(filters_with_all(Filters { daily_latest: *c, ..f })),
        Message::FilterDailyArchiveChanged(c) => Some(filters_with_all(Filters { daily_archive: *c, ..f })),
        Message::FilterExperimentalLatestChanged(c) => Some(filters_with_all(Filters { experimental_latest: *c, ..f })),
        Message::FilterExperimentalArchiveChanged(c) => Some(filters_with_all(Filters { experimental_archive: *c, ..f })),
        Message::FilterPatchLatestChanged(c) => Some(filters_with_all(Filters { patch_latest: *c, ..f })),
        Message::FilterPatchArchiveChanged(c) => Some(filters_with_all(Filters { patch_archive: *c, ..f })),
        Message::FilterStableLatestChanged(c) => Some(filters_with_all(Filters { stable_latest: *c, ..f })),
        Message::FilterStableArchiveChanged(c) => Some(filters_with_all(Filters { stable_archive: *c, ..f })),
        Message::FilterLtsChanged(c) => Some(filters_with_all(Filters { lts: *c, ..f })),
        _ => None,
    }
}

/// Applies a message that only changes how the window looks or starts;
/// tells whether it was one.
#[verifier::rlimit(30)]
fn apply_look(settings: &mut Settings, message: &Message) -> (r: bool)
    ensures
        r == (look_changed(*old(settings), *message) is Some),
        r ==> *final(settings) == look_changed(*old(settings), *message)->0,
        !r ==> *final(settings) == *old(settings),
{
    match message {
        Message::SortingChanged(b) => settings.sort_by = *b,
        Message::TabChanged(t) => settings.tab = *t,
        Message::BypassLauncher(c) => settings.bypass_launcher = c.is_enabled(),
        Message::ModifierKey(k) => settings.modifier_key = *k,
        Message::ThemeChanged(t) => settings.theme = *t,
        _ => return false,
    }
    true
}

/// Applies a message that only changes how updates are looked for; tells
/// whether it was one.
#[verifier::rlimit(30)]
fn apply_updating(settings: &mut Settings, message: &Message) -> (r: bool)
    ensures
        r == (updating_changed(*old(settings), *message) is Some),
        r ==> *final(settings) == updating_changed(*old(settings), *message)->0,
        !r ==> *final(settings) == *old(settings),
{
    match message {
        Message::UseLatestAsDefault(c) => settings.use_latest_as_default = c.is_enabled(),
        Message::CheckUpdatesAtLaunch(c) => settings.check_updates_at_launch = c.is_enabled(),
        Message::MinutesBetweenUpdatesChanged(n) => settings.change_minutes_between_updates(*n),
        Message::SelfUpdater(c) => settings.self_updater = c.is_enabled(),
        Message::CheckSelfUpdatesAtLaunch(c) => settings.check_self_updates_at_launch = c.is_enabled(),
        _ => return false,
    }
    true
}

/// Applies a message that only changes which latest lists are followed for
/// updates; tells whether it was one.
#[verifier::rlimit(30)]
fn apply_followed(settings: &mut Settings, message: &Message) -> (r: bool)
    ensures
        r == (followed_changed(*old(settings), *message) is Some),
        r ==> *final(settings) == followed_changed(*old(settings), *message)->0,
        !r ==> *final(settings) == *old(settings),
{
    match message {
        Message::UpdateDailyLatest(c) => settings.update_daily_latest = c.is_enabled(),
        Message::UpdateExperimentalLatest(c) => settings.update_experimental_latest = c.is_enabled(),
        Message::UpdatePatchLatest(c) => settings.update_patch_latest = c.is_enabled(),
        Message::UpdateStableLatest(c) => settings.update_stable_latest = c.is_enabled(),
        Message::UpdateLts(c) => settings.update_lts = c.is_enabled(),
        _ => return false,
    }
    true
}

/// Applies a message that only changes the settings; tells whether it was one.
fn apply_setting(settings: &mut Settings, message: &Message) -> (r: bool)
    ensures
        r == (setting_changed(*old(settings), *message) is Some),
        r ==> *final(settings) == setting_changed(*old(settings), *message)->0,
        !r ==> *final(settings) == *old(settings),
{
    match changed_filters(settings.filters, message) {
        Some(f) => {
            settings.filters = f;
            true
        },
        None => {
            if apply_look(settings, message) {
                true
            } else if apply_updating(settings, message) {
                true
            } else {
                apply_followed(settings, message)
            }
        },
    }
}

/// The invariant of the window's state: no file is recorded twice and no
/// package is bookmarked twice.
pub open spec fn wf(g: Gui) -> bool {
    &&& unique_paths(g.settings.recent_files.0@)
    &&& no_duplicates(g.settings.bookmarks@)
}

/// `b` is `a` after reading the installed packages `found`, syncing the
/// lists with them and merging the lists again.
pub open spec fn synced_gui(a: Gui, found: Seq<Package>, b: Gui) -> bool {
    &&& b.releases.installed.0@.to_multiset() == found.to_multiset()
    &&& newest_first(b.releases.installed.0@)
    &&& synced_releases(Releases { installed: b.releases.installed, ..a.releases }, b.releases, b.settings)
    &&& views(b.packages@) == merged(views(all_listed(&b.releases)))
}

/// Syncing keeps the lengths of the lists.
proof fn lemma_synced_len(a: Releases, b: Releases, s: Settings)
    requires
        synced_releases(a, b, s),
    ensures
        all_listed(&b).len() == all_listed(&a).len(),
{
}

/// A record of the file `path` opened with `name` at `now` was added to
/// the records `before`, giving `after`: it replaces the record of the same
/// path, or comes last.
pub open spec fn recorded(before: Seq<RecentFile>, after: Seq<RecentFile>, path: Seq<char>, name: Seq<char>, now: i64) -> bool {
    let fresh = |f: RecentFile| {
        &&& Some(f.name@) == file_name_of(path)
        &&& f.path@ == path
        &&& f.last_opened_with@ == name
        &&& f.last_opened_on == now
    };
    if exists|i: int| 0 <= i < before.len() && before[i].path@ == path {
        let i = choose|i: int| 0 <= i < before.len() && before[i].path@ == path;
        &&& after.len() == before.len()
        &&& fresh(after[i])
        &&& forall|j: int| 0 <= j < before.len() && j != i ==> after[j] == before[j]
    } else {
        &&& after.len() == before.len() + 1
        &&& fresh(after.last())
        &&& after.drop_last() == before
    }
}

/// `b` and `e` follow from opening the chosen file with the package `name`
/// at `now`: the file is recorded, the settings saved, and the package
/// started with the file.
pub open spec fn opened_with_file(a: Gui, name: Seq<char>, now: i64, b: Gui, e: Seq<Effect>) -> bool {
    &&& a.file_path matches Some(f)
    &&& b == (Gui { settings: Settings { recent_files: b.settings.recent_files, ..a.settings }, ..a })
    &&& recorded(a.settings.recent_files.0@, b.settings.recent_files.0@, f@, name, now)
    &&& e.len() == 2
    &&& e[0] is SaveSettings
    &&& e[1] matches Effect::OpenBlender { name: n, file: Some(g) }
    &&& n@ == name
    &&& g@ == f@
}

/// The package `p` was taken out of the installations under way, and the
/// flag of an installation under way is cleared when none is left.
pub open spec fn install_ended(a: Gui, p: Package, b: Gui) -> bool {
    exists|i: int|
        0 <= i < a.installing@.len() && same_package(#[trigger] a.installing@[i]@, p@) && (forall|k: int|
            0 <= k < i ==> !same_package(#[trigger] a.installing@[k]@, p@)) && b == (Gui {
            installing: b.installing,
            installing_any: if b.installing@.len() == 0 { false } else { a.installing_any },
            ..a
        }) && b.installing@ == a.installing@.remove(i)
}

impl Gui {
    /// Takes the installed packages found on disk, syncs every list with
    /// them and merges the lists again.
    pub fn sync(&mut self, found: Vec<Package>)
        requires
            all_listed(&old(self).releases).len() <= usize::MAX,
        ensures
            synced_gui(*old(self), found@, *final(self)),
            *final(self) == (Gui { releases: final(self).releases, packages: final(self).packages, ..*old(self) }),
    {
        let ghost before = self.releases;
        self.releases.installed.fetch(found);
        let ghost mid = self.releases;
        self.releases.sync(&self.settings);
        proof {
            assert(mid == Releases { installed: mid.installed, ..before });
            lemma_synced_len(mid, self.releases, self.settings);
            assert(all_listed(&mid).len() == all_listed(&before).len());
        }
        self.packages = self.releases.build_vec();
    }

    /// After an installation: takes the installed packages found on disk,
    /// lets a newer installed release of the default package's series
    /// become the default where the settings ask for it, then syncs. Tells
    /// to save the settings when the default changed.
    pub fn installed_changed(&mut self, found: Vec<Package>) -> (e: Vec<Effect>)
        requires
            all_listed(&old(self).releases).len() <= usize::MAX,
        ensures
            synced_gui(*old(self), found@, *final(self)),
            *final(self) == (Gui {
                releases: final(self).releases,
                packages: final(self).packages,
                settings: Settings { default_package: final(self).settings.default_package, ..old(self).settings },
                ..*old(self)
            }),
            match old(self).settings.default_package {
                Some(d) if old(self).settings.use_latest_as_default => match crate::releases::installed::first_successor(final(self).releases.installed.0@, d, 0) {
                    Some(j) if final(self).releases.installed.0@[j].date > d.date => {
                        &&& e@ == seq![Effect::SaveSettings]
                        &&& final(self).settings.default_package matches Some(n)
                        &&& n@ == final(self).releases.installed.0@[j]@
                    },
                    _ => e@ == Seq::<Effect>::empty() && final(self).settings.default_package == old(self).settings.default_package,
                },
                _ => e@ == Seq::<Effect>::empty() && final(self).settings.default_package == old(self).settings.default_package,
            },
    {
        let ghost before = self.releases;
        self.releases.installed.fetch(found);
        let changed = self.releases.installed.update_default(&mut self.settings);
        let ghost mid = self.releases;
        self.releases.sync(&self.settings);
        proof {
            assert(mid == Releases { installed: mid.installed, ..before });
            lemma_synced_len(mid, self.releases, self.settings);
            assert(all_listed(&mid).len() == all_listed(&before).len());
        }
        self.packages = self.releases.build_vec();
        let mut e: Vec<Effect> = Vec::new();
        if changed {
            e.push(Effect::SaveSettings);
        }
        e
    }

    /// Records the chosen file as opened with the package `name` at `now`,
    /// and starts the package with it.
    fn open_with_file(&mut self, name: String, now: i64) -> (e: Vec<Effect>)
        requires
            old(self).file_path matches Some(f) && file_name_of(f@) is Some,
            unique_paths(old(self).settings.recent_files.0@),
        ensures
            opened_with_file(*old(self), name@, now, *final(self), e@),
            unique_paths(final(self).settings.recent_files.0@),
    {
        let f = match &self.file_path {
            Some(f) => f.clone(),
            None => String::new(),
        };
        let file = RecentFile::new(f.as_str(), name.clone(), now);
        let ghost before = self.settings.recent_files.0@;
        self.settings.recent_files.insert(file);
        proof {
            if exists|i: int| 0 <= i < before.len() && before[i].path@ == f@ {
                assert(self.settings.recent_files.0@.len() == before.len());
            } else {
                assert(self.settings.recent_files.0@.drop_last() =~= before);
            }
        }
        let mut e: Vec<Effect> = Vec::new();
        e.push(Effect::SaveSettings);
        e.push(Effect::OpenBlender { name, file: Some(f) });
        e
    }
}

/// The text of the dialog that tells that a package can no longer be downloaded.
pub open spec fn unavailable_text(name: Seq<char>) -> Seq<char> {
    "Package '"@ + name + "' is no longer available."@
}

/// `b` and `e` follow from the check of whether a package can be
/// downloaded: one that can and was to be installed is installed; after a
/// removal (not for installing) or a failed check the lists are synced; one
/// that cannot be downloaded any more is taken out of its list, the list is
/// saved, the user told, and the lists synced.
pub open spec fn availability_checked(a: Gui, outcome: Option<(bool, bool, Package)>, b: Gui, e: Seq<Effect>) -> bool {
    match outcome {
        Some((available, for_install, p)) => if available && for_install {
            b == a && e =~= seq![Effect::InstallPackage(p)]
        } else if !for_install {
            b == a && e =~= seq![Effect::Sync]
        } else {
            let kind = list_kind_of(p.build@);
            &&& b == (Gui { releases: b.releases, ..a })
            &&& crate::releases::others_unchanged(a.releases, b.releases, kind)
            &&& exists|i: int|
                0 <= i < list_of(a.releases, kind).len() && same_package(
                    #[trigger] list_of(a.releases, kind)[i]@,
                    p@,
                ) && (forall|k: int| 0 <= k < i ==> !same_package(
                    #[trigger] list_of(a.releases, kind)[k]@,
                    p@,
                )) && list_of(b.releases, kind) == list_of(a.releases, kind).remove(i)
            &&& e.len() == 3
            &&& e[0] == Effect::SaveDatabase(kind)
            &&& e[1] matches Effect::ShowMessage(text)
            &&& text@ == unavailable_text(p.name@)
            &&& e[2] is Sync
        },
        None => b == a && e =~= seq![Effect::Sync],
    }
}

/// What the check of a package's availability may report without a
/// failure: a package that cannot be downloaded any more, checked to be
/// installed, is in the list of its build.
pub open spec fn availability_expected(a: Gui, outcome: Option<(bool, bool, Package)>) -> bool {
    match outcome {
        Some((available, for_install, p)) => for_install && !available ==> holds(
            list_of(a.releases, list_kind_of(p.build@)),
            p,
        ),
        None => true,
    }
}

impl Gui {
    /// Acts on the package at `index` of the merged list.
    fn on_package(&mut self, index: usize, message: PackageMessage) -> (e: Vec<Effect>)
        requires
            index < old(self).packages@.len(),
        ensures
            package_acted(*old(self), index, message, *final(self), e@),
    {
        let mut package = self.packages.remove(index);
        let command = package.update(message, &mut self.settings);
        self.packages.insert(index, package);
        let mut e: Vec<Effect> = Vec::new();
        e.push(Effect::Package(command));
        e
    }

    /// Bookmarks the package, or takes its bookmark away, then keeps only
    /// the bookmarks of listed packages.
    fn on_bookmark(&mut self, package: Package) -> (e: Vec<Effect>)
        requires
            no_duplicates(old(self).settings.bookmarks@),
        ensures
            bookmarked(*old(self), package, *final(self), e@),
    {
        self.settings.bookmarks.update(package.name);
        self.settings.bookmarks.clean(&self.packages);
        let mut e: Vec<Effect> = Vec::new();
        e.push(Effect::SaveSettings);
        e
    }

    /// Acts on the outcome of checking whether a package can be downloaded.
    fn on_availability(&mut self, outcome: Option<(bool, bool, Package)>) -> (e: Vec<Effect>)
        requires
            availability_expected(*old(self), outcome),
        ensures
            availability_checked(*old(self), outcome, *final(self), e@),
    {
        let mut e: Vec<Effect> = Vec::new();
        match outcome {
            Some((available, for_install, package)) => {
                if available && for_install {
                    e.push(Effect::InstallPackage(package));
                } else if !for_install {
                    e.push(Effect::Sync);
                } else {
                    let kind = self.releases.remove_package(&package);
                    let text = String::from_str("Package '").concat(package.name.as_str()).concat(
                        "' is no longer available.",
                    );
                    e.push(Effect::SaveDatabase(kind));
                    e.push(Effect::ShowMessage(text));
                    e.push(Effect::Sync);
                }
            },
            None => e.push(Effect::Sync),
        }
        e
    }

    /// Adds the package to the installations under way.
    fn on_install(&mut self, package: Package) -> (e: Vec<Effect>)
        ensures
            install_added(*old(self), package, *final(self), e@),
    {
        if self.installing.len() == 0 {
            self.installing_any = true;
        }
        self.installing.push(package);
        Vec::new()
    }

    /// Takes the package out of the installations under way. It is one of them.
    fn end_install(&mut self, package: &Package)
        requires
            holds(old(self).installing@, *package),
        ensures
            install_ended(*old(self), *package, *final(self)),
    {
        let i = match crate::sorting::position_of(&self.installing, package) {
            Some(i) => i,
            None => 0,
        };
        self.installing.remove(i);
        if self.installing.len() == 0 {
            self.installing_any = false;
        }
    }

    /// Forgets a removed package as the default, and checks whether it can
    /// still be downloaded.
    fn on_removed(&mut self, package: Package) -> (e: Vec<Effect>)
        ensures
            package_removed(*old(self), package, *final(self), e@),
    {
        let mut e: Vec<Effect> = Vec::new();
        let same = match &self.settings.default_package {
            Some(d) => *d == package,
            None => false,
        };
        if same {
            self.settings.default_package = None;
            e.push(Effect::SaveSettings);
        }
        e.push(Effect::CheckAvailability { for_install: false, package });
        e
    }
}

/// The settings with the directory of the location set to `dir`.
pub open spec fn with_location(s: Settings, location: Location, dir: String) -> Settings {
    match location {
        Location::Databases => Settings { databases_dir: dir, ..s },
        Location::Packages => Settings { packages_dir: dir, ..s },
        Location::Cache => Settings { cache_dir: dir, ..s },
    }
}

/// The effects of moving a location: save the settings, and sync again
/// when the packages moved.
pub open spec fn location_effects(location: Location) -> Seq<Effect> {
    if location == Location::Packages {
        seq![Effect::SaveSettings, Effect::Sync]
    } else {
        seq![Effect::SaveSettings]
    }
}

/// The default directory of the location.
pub open spec fn default_location(dirs: ProjectDirs, location: Location) -> String {
    match location {
        Location::Databases => dirs.config,
        Location::Packages => dirs.data_local,
        Location::Cache => dirs.cache,
    }
}

/// Sets the directory of the location.
fn move_location(settings: &mut Settings, location: Location, dir: String)
    ensures
        *final(settings) == with_location(*old(settings), location, dir),
{
    match location {
        Location::Databases => settings.databases_dir = dir,
        Location::Packages => settings.packages_dir = dir,
        Location::Cache => settings.cache_dir = dir,
    }
}

impl Gui {
    /// Moves the location to `dir`.
    fn set_location(&mut self, location: Location, dir: String) -> (e: Vec<Effect>)
        ensures
            location_set(*old(self), location, dir, *final(self), e@),
    {
        move_location(&mut self.settings, location, dir);
        let mut e: Vec<Effect> = Vec::new();
        e.push(Effect::SaveSettings);
        if location == Location::Packages {
            e.push(Effect::Sync);
        }
        e
    }

    /// Moves the location back to its default directory.
    fn reset_location(&mut self, location: Location) -> (e: Vec<Effect>)
        ensures
            location_reset(*old(self), location, *final(self), e@),
    {
        let dir = match location {
            Location::Databases => self.dirs.config.clone(),
            Location::Packages => self.dirs.data_local.clone(),
            Location::Cache => self.dirs.cache.clone(),
        };
        self.set_location(location, dir)
    }

    /// Starts fetching the list of that kind again.
    fn fetch_list(&mut self, kind: ListKind) -> (e: Vec<Effect>)
        ensures
            fetch_started(*old(self), kind, *final(self), e@),
    {
        self.fetching = true;
        let list = self.releases.take_list(kind);
        let mut e: Vec<Effect> = Vec::new();
        e.push(Effect::Fetch((kind, list)));
        e
    }

    /// Puts the fetched list of that kind in place, and syncs again.
    fn list_fetched(&mut self, kind: ListKind, list: ReleaseList) -> (e: Vec<Effect>)
        ensures
            list_replaced(*old(self), kind, list, *final(self), e@),
    {
        let _ = self.releases.replace_list(kind, list);
        self.fetching = false;
        let mut e: Vec<Effect> = Vec::new();
        e.push(Effect::Sync);
        e
    }

    /// Starts looking for new packages in the latest lists.
    fn check_for_updates(&mut self) -> (e: Vec<Effect>)
        ensures
            update_check_started(*old(self), *final(self), e@),
    {
        self.fetching = true;
        let lists = self.releases.take();
        let mut e: Vec<Effect> = Vec::new();
        e.push(Effect::CheckForUpdates(lists));
        e
    }

    /// Puts the latest lists back after new packages were looked for, and syncs.
    fn updates_checked(&mut self, lists: (bool, DailyLatest, ExperimentalLatest, PatchLatest, StableLatest, Lts)) -> (e: Vec<Effect>)
        ensures
            updates_put_back(*old(self), lists, *final(self), e@),
    {
        self.releases.add_new_packages(lists);
        self.fetching = false;
        let mut e: Vec<Effect> = Vec::new();
        e.push(Effect::Sync);
        e
    }

    /// Starts fetching every list again.
    fn fetch_all(&mut self) -> (e: Vec<Effect>)
        ensures
            fetch_all_started(*old(self), *final(self), e@),
    {
        self.fetching = true;
        let lists = (
            self.releases.daily_latest.take(),
            self.releases.daily_archive.take(),
            self.releases.experimental_latest.take(),
            self.releases.experimental_archive.take(),
            self.releases.patch_latest.take(),
            self.releases.patch_archive.take(),
            self.releases.stable_latest.take(),
            self.releases.stable_archive.take(),
            self.releases.lts.take(),
        );
        let mut e: Vec<Effect> = Vec::new();
        e.push(Effect::CheckAll(lists));
        e
    }

    /// Puts every fetched list in place, and syncs.
    fn all_fetched(
        &mut self,
        lists: (
            bool,
            DailyLatest,
            DailyArchive,
            ExperimentalLatest,
            ExperimentalArchive,
            PatchLatest,
            PatchArchive,
            StableLatest,
            StableArchive,
            Lts,
        ),
    ) -> (e: Vec<Effect>)
        ensures
            all_put_back(*old(self), lists, *final(self), e@),
    {
        self.releases.daily_latest = lists.1;
        self.releases.daily_archive = lists.2;
        self.releases.experimental_latest = lists.3;
        self.releases.experimental_archive = lists.4;
        self.releases.patch_latest = lists.5;
        self.releases.patch_archive = lists.6;
        self.releases.stable_latest = lists.7;
        self.releases.stable_archive = lists.8;
        self.releases.lts = lists.9;
        self.fetching = false;
        let mut e: Vec<Effect> = Vec::new();
        e.push(Effect::Sync);
        e
    }

    /// Forgets the list of that kind, whose saved copy was deleted, and syncs.
    fn database_removed(&mut self, kind: ListKind) -> (e: Vec<Effect>)
        ensures
            list_forgotten(*old(self), kind, *final(self), e@),
    {
        let _ = self.releases.take_list(kind);
        let mut e: Vec<Effect> = Vec::new();
        e.push(Effect::Sync);
        e
    }

    /// Removes the installed packages of the lists that `which` names, then syncs.
    fn remove_packages(&self, which: BuildTypeSettings) -> (e: Vec<Effect>)
        ensures
            packages_removed(*self, which, *self, e@),
    {
        let mut e: Vec<Effect> = Vec::new();
        if matches!(which, BuildTypeSettings::All) {
            e.push(Effect::RemoveDirectory(self.settings.packages_dir.clone()));
        } else {
            let selected = self.releases.installed.selected(which);
            e.push(Effect::RemovePackages(selected));
        }
        e.push(Effect::Sync);
        e
    }

    /// Removes the saved lists that `which` names, then syncs.
    fn remove_databases(&mut self, which: BuildTypeSettings) -> (e: Vec<Effect>)
        ensures
            databases_removed(*old(self), which, *final(self), e@),
    {
        let mut e: Vec<Effect> = Vec::new();
        if matches!(which, BuildTypeSettings::All) {
            e.push(Effect::RemoveDirectory(self.settings.databases_dir.clone()));
            self.releases.daily_latest = ReleaseList::new();
            self.releases.daily_archive = ReleaseList::new();
            self.releases.experimental_latest = ReleaseList::new();
            self.releases.experimental_archive = ReleaseList::new();
            self.releases.patch_latest = ReleaseList::new();
            self.releases.patch_archive = ReleaseList::new();
            self.releases.stable_latest = ReleaseList::new();
            self.releases.stable_archive = ReleaseList::new();
            self.releases.lts = ReleaseList::new();
            assert forall|k: ListKind| #[trigger] list_of(self.releases, k) == Seq::<Package>::empty() by {}
        } else {
            e.push(Effect::RemoveDatabases(which));
        }
        e.push(Effect::Sync);
        e
    }

    /// Takes the fetched releases of the launcher, and lists their versions.
    fn populate_self_releases(&mut self, releases: Option<Vec<Release>>) -> (e: Vec<Effect>)
        ensures
            self_releases_taken(*old(self), releases, *final(self), e@),
    {
        match &releases {
            Some(v) => self.state.release_versions = crate::self_updater::versions_of(v),
            None => {},
        }
        self.self_releases = releases;
        self.state.fetching_releases = false;
        Vec::new()
    }

    /// Starts installing the selected release of the launcher. The releases
    /// were fetched.
    fn change_version(&mut self) -> (e: Vec<Effect>)
        requires
            old(self).self_releases is Some,
        ensures
            version_change_started(*old(self), *final(self), e@),
    {
        self.state.installing_release = true;
        let releases = match &self.self_releases {
            Some(v) => crate::self_updater::copy_releases(v),
            None => Vec::new(),
        };
        let version = self.state.pick_list_selected_releases.clone();
        let mut e: Vec<Effect> = Vec::new();
        e.push(Effect::ChangeSelfVersion { releases, version });
        e
    }
}

/// Acts on the package at `index` of the merged list.
pub open spec fn package_acted(a: Gui, index: usize, message: PackageMessage, b: Gui, e: Seq<Effect>) -> bool {
    &&& b.packages@ =~= a.packages@.update(index as int, b.packages@[index as int])
    &&& b == (Gui { packages: b.packages, settings: b.settings, ..a })
    &&& e.len() == 1
    &&& e[0] matches Effect::Package(c) && package_updated(
        a.packages@[index as int],
        message,
        b.packages@[index as int],
        a.settings,
        b.settings,
        c,
    )
}

/// Bookmarks the package, or takes its bookmark away, then keeps only
/// the bookmarks of listed packages.
pub open spec fn bookmarked(a: Gui, package: Package, b: Gui, e: Seq<Effect>) -> bool {
    &&& b.settings.bookmarks@ == crate::settings::kept_bookmarks(
        crate::settings::toggled(a.settings.bookmarks@, package.name@),
        crate::settings::package_names(a.packages@),
    )
    &&& no_duplicates(b.settings.bookmarks@)
    &&& b == (Gui { settings: Settings { bookmarks: b.settings.bookmarks, ..a.settings }, ..a })
    &&& e =~= seq![Effect::SaveSettings]
}

/// Adds the package to the installations under way.
pub open spec fn install_added(a: Gui, package: Package, b: Gui, e: Seq<Effect>) -> bool {
    &&& b == (Gui {
        installing: b.installing,
        installing_any: if a.installing@.len() == 0 { true } else { a.installing_any },
        ..a
    })
    &&& b.installing@ =~= a.installing@.push(package)
    &&& e.len() == 0
}

/// Forgets a removed package as the default, and checks whether it can
/// still be downloaded.
pub open spec fn package_removed(a: Gui, package: Package, b: Gui, e: Seq<Effect>) -> bool {
    &&& match a.settings.default_package {
        Some(d) if same_package(d@, package@) => {
            &&& b == (Gui { settings: Settings { default_package: None, ..a.settings }, ..a })
            &&& e =~= seq![Effect::SaveSettings, Effect::CheckAvailability { for_install: false, package }]
        },
        _ => {
            &&& b == a
            &&& e =~= seq![Effect::CheckAvailability { for_install: false, package }]
        },
    }
}

/// Moves the location back to its default directory.
pub open spec fn location_reset(a: Gui, location: Location, b: Gui, e: Seq<Effect>) -> bool {
    &&& b == (Gui {
        settings: with_location(a.settings, location, default_location(a.dirs, location)),
        ..a
    })
    &&& e =~= location_effects(location)
}

/// Moves the location to `dir`.
pub open spec fn location_set(a: Gui, location: Location, dir: String, b: Gui, e: Seq<Effect>) -> bool {
    &&& b == (Gui { settings: with_location(a.settings, location, dir), ..a })
    &&& e =~= location_effects(location)
}

/// Starts fetching the list of that kind again.
pub open spec fn fetch_started(a: Gui, kind: ListKind, b: Gui, e: Seq<Effect>) -> bool {
    &&& b == (Gui { releases: b.releases, fetching: true, ..a })
    &&& list_of(b.releases, kind) == Seq::<Package>::empty()
    &&& crate::releases::others_unchanged(a.releases, b.releases, kind)
    &&& e.len() == 1
    &&& e[0] matches Effect::Fetch((k, l)) && k == kind && l.packages@ == list_of(a.releases, kind)
}

/// Puts the fetched list of that kind in place, and syncs again.
pub open spec fn list_replaced(a: Gui, kind: ListKind, list: ReleaseList, b: Gui, e: Seq<Effect>) -> bool {
    &&& b == (Gui { releases: b.releases, fetching: false, ..a })
    &&& list_of(b.releases, kind) == list.packages@
    &&& crate::releases::others_unchanged(a.releases, b.releases, kind)
    &&& e =~= seq![Effect::Sync]
}

/// Starts looking for new packages in the latest lists.
pub open spec fn update_check_started(a: Gui, b: Gui, e: Seq<Effect>) -> bool {
    &&& b == (Gui { releases: b.releases, fetching: true, ..a })
    &&& b.releases == (Releases {
        daily_latest: b.releases.daily_latest,
        experimental_latest: b.releases.experimental_latest,
        patch_latest: b.releases.patch_latest,
        stable_latest: b.releases.stable_latest,
        lts: b.releases.lts,
        ..a.releases
    })
    &&& b.releases.daily_latest.packages@ == Seq::<Package>::empty()
    &&& b.releases.experimental_latest.packages@ == Seq::<Package>::empty()
    &&& b.releases.patch_latest.packages@ == Seq::<Package>::empty()
    &&& b.releases.stable_latest.packages@ == Seq::<Package>::empty()
    &&& b.releases.lts.packages@ == Seq::<Package>::empty()
    &&& e.len() == 1
    &&& e[0] matches Effect::CheckForUpdates(t) && t.0.packages@ == a.releases.daily_latest.packages@
        && t.1.packages@ == a.releases.experimental_latest.packages@
        && t.2.packages@ == a.releases.patch_latest.packages@
        && t.3.packages@ == a.releases.stable_latest.packages@
        && t.4.packages@ == a.releases.lts.packages@
}

/// Puts the latest lists back after new packages were looked for, and syncs.
pub open spec fn updates_put_back(a: Gui, lists: (bool, DailyLatest, ExperimentalLatest, PatchLatest, StableLatest, Lts), b: Gui, e: Seq<Effect>) -> bool {
    &&& b == (Gui {
        releases: Releases {
            daily_latest: lists.1,
            experimental_latest: lists.2,
            patch_latest: lists.3,
            stable_latest: lists.4,
            lts: lists.5,
            ..a.releases
        },
        fetching: false,
        ..a
    })
    &&& e =~= seq![Effect::Sync]
}

/// Starts fetching every list again.
pub open spec fn fetch_all_started(a: Gui, b: Gui, e: Seq<Effect>) -> bool {
    &&& b == (Gui { releases: b.releases, fetching: true, ..a })
    &&& b.releases.installed == a.releases.installed
    &&& forall|k: ListKind| #[trigger] list_of(b.releases, k) == Seq::<Package>::empty()
    &&& e.len() == 1
    &&& e[0] matches Effect::CheckAll(t) && t.0.packages@ == a.releases.daily_latest.packages@
        && t.1.packages@ == a.releases.daily_archive.packages@
        && t.2.packages@ == a.releases.experimental_latest.packages@
        && t.3.packages@ == a.releases.experimental_archive.packages@
        && t.4.packages@ == a.releases.patch_latest.packages@
        && t.5.packages@ == a.releases.patch_archive.packages@
        && t.6.packages@ == a.releases.stable_latest.packages@
        && t.7.packages@ == a.releases.stable_archive.packages@
        && t.8.packages@ == a.releases.lts.packages@
}

/// Puts every fetched list in place, and syncs.
pub open spec fn all_put_back(a: Gui, lists: (bool, DailyLatest, DailyArchive, ExperimentalLatest, ExperimentalArchive, PatchLatest, PatchArchive, StableLatest, StableArchive, Lts), b: Gui, e: Seq<Effect>) -> bool {
    &&& b == (Gui {
        releases: Releases {
            daily_latest: lists.1,
            daily_archive: lists.2,
            experimental_latest: lists.3,
            experimental_archive: lists.4,
            patch_latest: lists.5,
            patch_archive: lists.6,
            stable_latest: lists.7,
            stable_archive: lists.8,
            lts: lists.9,
            ..a.releases
        },
        fetching: false,
        ..a
    })
    &&& e =~= seq![Effect::Sync]
}

/// Forgets the list of that kind, whose saved copy was deleted, and syncs.
pub open spec fn list_forgotten(a: Gui, kind: ListKind, b: Gui, e: Seq<Effect>) -> bool {
    &&& b == (Gui { releases: b.releases, ..a })
    &&& list_of(b.releases, kind) == Seq::<Package>::empty()
    &&& crate::releases::others_unchanged(a.releases, b.releases, kind)
    &&& e =~= seq![Effect::Sync]
}

/// Removes the installed packages of the lists that `which` names, then
/// syncs; removing all of them removes the packages directory itself.
pub open spec fn packages_removed(a: Gui, which: BuildTypeSettings, b: Gui, e: Seq<Effect>) -> bool {
    &&& b == a
    &&& e.len() == 2
    &&& if which is All {
        e[0] == Effect::RemoveDirectory(a.settings.packages_dir)
    } else {
        e[0] matches Effect::RemovePackages(v) && views(v@) == crate::releases::installed::selection(
            views(a.releases.installed.0@),
            which,
        )
    }
    &&& e[1] is Sync
}

/// Every release list is empty.
pub open spec fn all_lists_empty(r: Releases) -> bool {
    forall|k: ListKind| #[trigger] list_of(r, k) == Seq::<Package>::empty()
}

/// Removes the saved lists that `which` names, then syncs. Removing all of
/// them removes the databases directory itself, and empties every list
/// (the installed packages stay); otherwise each saved list that exists is
/// deleted and reported back.
pub open spec fn databases_removed(a: Gui, which: BuildTypeSettings, b: Gui, e: Seq<Effect>) -> bool {
    if which is All {
        &&& b == (Gui { releases: b.releases, ..a })
        &&& all_lists_empty(b.releases)
        &&& b.releases.installed == a.releases.installed
        &&& e =~= seq![Effect::RemoveDirectory(a.settings.databases_dir), Effect::Sync]
    } else {
        b == a && e =~= seq![Effect::RemoveDatabases(which), Effect::Sync]
    }
}

/// Takes the fetched releases of the launcher, and lists their versions.
pub open spec fn self_releases_taken(a: Gui, releases: Option<Vec<Release>>, b: Gui, e: Seq<Effect>) -> bool {
    &&& b == (Gui {
        self_releases: releases,
        state: GuiState {
            release_versions: match releases {
                Some(v) => b.state.release_versions,
                None => a.state.release_versions,
            },
            fetching_releases: false,
            ..a.state
        },
        ..a
    })
    &&& releases matches Some(v) ==> b.state.release_versions@ == crate::self_updater::release_versions(v@)
    &&& e.len() == 0
}

/// Starts installing the selected release of the launcher. The releases
/// were fetched.
pub open spec fn version_change_started(a: Gui, b: Gui, e: Seq<Effect>) -> bool {
    &&& b == (Gui { state: GuiState { installing_release: true, ..a.state }, ..a })
    &&& e.len() == 1
    &&& e[0] matches Effect::ChangeSelfVersion { releases, version } && releases@ == a.self_releases->0@
        && version == a.state.pick_list_selected_releases
}

/// `b` and `e` follow from acting on the recent file `file` by the message
/// at `now`: opening it selects it and opens it with the package it was
/// last opened with, or with the default package; selecting only selects
/// it; removing takes its record away, saves the settings and lists the
/// records again, newest first.
pub open spec fn recent_file_handled(a: Gui, file: String, m: RecentFileMessage, now: i64, b: Gui, e: Seq<Effect>) -> bool {
    match m {
        RecentFileMessage::OpenWithLastBlender(name) => opened_with_file(
            Gui { file_path: Some(file), ..a },
            name@,
            now,
            b,
            e,
        ),
        RecentFileMessage::OpenWithDefaultBlender => opened_with_file(
            Gui { file_path: Some(file), ..a },
            a.settings.default_package->0.name@,
            now,
            b,
            e,
        ),
        RecentFileMessage::Select => b == (Gui { file_path: Some(file), ..a }) && e.len() == 0,
        RecentFileMessage::Remove => recent_removed(a, file, b, e),
    }
}

/// What acting on a recent file takes for granted: opening it needs a file
/// name, and opening it with the default package needs one.
pub open spec fn recent_file_expected(a: Gui, file: String, m: RecentFileMessage) -> bool {
    match m {
        RecentFileMessage::OpenWithLastBlender(_) => file_name_of(file@) is Some,
        RecentFileMessage::OpenWithDefaultBlender => file_name_of(file@) is Some
            && a.settings.default_package is Some,
        _ => true,
    }
}

/// `b` and `e` follow from removing the record of `file`.
pub open spec fn recent_removed(a: Gui, file: String, b: Gui, e: Seq<Effect>) -> bool {
    &&& b == (Gui {
        settings: Settings { recent_files: b.settings.recent_files, ..a.settings },
        recent_files: b.recent_files,
        ..a
    })
    &&& match a.settings.recent_files.position_spec(file@) {
        Some(i) => b.settings.recent_files.0@ == a.settings.recent_files.0@.remove(i),
        None => b.settings.recent_files.0@ == a.settings.recent_files.0@,
    }
    &&& b.recent_files@.to_multiset() == b.settings.recent_files.0@.to_multiset()
    &&& crate::gui::tabs::recent_files::newest_first(b.recent_files@)
    &&& e =~= seq![Effect::SaveSettings]
}

impl Gui {
    /// Takes the record of `file` away and lists the records again.
    fn remove_recent(&mut self, file: String) -> (e: Vec<Effect>)
        requires
            unique_paths(old(self).settings.recent_files.0@),
        ensures
            recent_removed(*old(self), file, *final(self), e@),
            unique_paths(final(self).settings.recent_files.0@),
    {
        self.settings.recent_files.remove(file.as_str());
        self.recent_files = self.settings.recent_files.to_vec();
        let mut e: Vec<Effect> = Vec::new();
        e.push(Effect::SaveSettings);
        e
    }

    /// Selects `file` and opens it with the package `name`.
    fn open_recent(&mut self, file: String, name: String, now: i64) -> (e: Vec<Effect>)
        requires
            file_name_of(file@) is Some,
            unique_paths(old(self).settings.recent_files.0@),
        ensures
            opened_with_file(Gui { file_path: Some(file), ..*old(self) }, name@, now, *final(self), e@),
            unique_paths(final(self).settings.recent_files.0@),
    {
        self.file_path = Some(file);
        self.open_with_file(name, now)
    }

    /// Acts on a recent file.
    fn on_recent_file(&mut self, file: String, message: RecentFileMessage, now: i64) -> (e: Vec<Effect>)
        requires
            recent_file_expected(*old(self), file, message),
            unique_paths(old(self).settings.recent_files.0@),
        ensures
            recent_file_handled(*old(self), file, message, now, *final(self), e@),
            unique_paths(final(self).settings.recent_files.0@),
    {
        match message {
            RecentFileMessage::OpenWithLastBlender(name) => self.open_recent(file, name, now),
            RecentFileMessage::OpenWithDefaultBlender => {
                let name = match &self.settings.default_package {
                    Some(d) => d.name.clone(),
                    None => String::new(),
                };
                self.open_recent(file, name, now)
            },
            RecentFileMessage::Select => {
                self.file_path = Some(file);
                Vec::new()
            },
            RecentFileMessage::Remove => self.remove_recent(file),
        }
    }
}

/// What a message takes for granted of the state (the window only sends
/// such messages): a package acted on is listed, a recent file opened has
/// a name, a package that stops installing is being installed, a file is
/// chosen before it is opened, the launcher's releases are fetched before
/// one is installed, and a package found unavailable is in its list.
pub open spec fn expected(a: Gui, m: Message) -> bool {
    match m {
        Message::PackageMessage((i, _)) => i < a.packages@.len(),
        Message::RecentFileMessage((file, rm)) => recent_file_expected(a, file, rm),
        Message::CheckAvailability(outcome) => availability_expected(a, outcome),
        Message::CancelInstall(p) => holds(a.installing@, p),
        Message::PackageInstalled(p) => holds(a.installing@, p),
        Message::OpenBlenderWithFile(_) => a.file_path matches Some(f) && file_name_of(f@) is Some,
        Message::ChangeVersion => a.self_releases is Some,
        _ => true,
    }
}

/// `b` and `e` follow from a message that does more than change a setting.
#[verifier::opaque]
pub open spec fn handled(a: Gui, m: Message, now: i64, b: Gui, e: Seq<Effect>) -> bool {
    match m {
        Message::PackageMessage((i, pm)) => package_acted(a, i, pm, b, e),
        Message::RecentFileMessage((file, rm)) => recent_file_handled(a, file, rm, now, b, e),
        Message::Bookmark(p) => bookmarked(a, p, b, e),
        Message::CheckAvailability(outcome) => availability_checked(a, outcome, b, e),
        Message::InstallPackage(p) => install_added(a, p, b, e),
        Message::CancelInstall(p) => install_ended(a, p, b) && e.len() == 0,
        Message::PackageInstalled(p) => install_ended(a, p, b) && e =~= seq![Effect::SyncInstalled],
        Message::PackageRemoved(p) => package_removed(a, p, b, e),
        Message::OpenBlender(n) => b == a && e =~= seq![Effect::OpenBlender { name: n, file: None }],
        Message::OpenBlenderWithFile(n) => opened_with_file(a, n@, now, b, e),
        Message::SelectFile => b == a && e =~= seq![Effect::SelectFile],
        Message::FileSelected(f) => b == (Gui { file_path: Some(f), ..a }) && e.len() == 0,
        Message::OpenBrowser(url) => b == a && e =~= seq![Effect::OpenBrowser(url)],
        Message::CheckForUpdates => update_check_started(a, b, e),
        Message::UpdatesChecked(lists) => updates_put_back(a, lists, b, e),
        Message::FetchAll => fetch_all_started(a, b, e),
        Message::AllFetched(lists) => all_put_back(a, lists, b, e),
        Message::FetchDailyLatest => fetch_started(a, ListKind::DailyLatest, b, e),
        Message::DailyLatestFetched((_, l)) => list_replaced(a, ListKind::DailyLatest, l, b, e),
        Message::FetchDailyArchive => fetch_started(a, ListKind::DailyArchive, b, e),
        Message::DailyArchiveFetched((_, l)) => list_replaced(a, ListKind::DailyArchive, l, b, e),
        Message::FetchExperimentalLatest => fetch_started(a, ListKind::ExperimentalLatest, b, e),
        Message::ExperimentalLatestFetched((_, l)) => list_replaced(a, ListKind::ExperimentalLatest, l, b, e),
        Message::FetchExperimentalArchive => fetch_started(a, ListKind::ExperimentalArchive, b, e),
        Message::ExperimentalArchiveFetched((_, l)) => list_replaced(a, ListKind::ExperimentalArchive, l, b, e),
        Message::FetchPatchLatest => fetch_started(a, ListKind::PatchLatest, b, e),
        Message::PatchLatestFetched((_, l)) => list_replaced(a, ListKind::PatchLatest, l, b, e),
        Message::FetchPatchArchive => fetch_started(a, ListKind::PatchArchive, b, e),
        Message::PatchArchiveFetched((_, l)) => list_replaced(a, ListKind::PatchArchive, l, b, e),
        Message::FetchStableLatest => fetch_started(a, ListKind::StableLatest, b, e),
        Message::StableLatestFetched((_, l)) => list_replaced(a, ListKind::StableLatest, l, b, e),
        Message::FetchStableArchive => fetch_started(a, ListKind::StableArchive, b, e),
        Message::StableArchiveFetched((_, l)) => list_replaced(a, ListKind::StableArchive, l, b, e),
        Message::FetchLts => fetch_started(a, ListKind::Lts, b, e),
        Message::LtsFetched((_, l)) => list_replaced(a, ListKind::Lts, l, b, e),
        Message::ChangeLocation(l) => b == a && e =~= seq![Effect::ChooseDirectory(l)],
        Message::LocationChosen((l, dir)) => location_set(a, l, dir, b, e),
        Message::ResetLocation(l) => location_reset(a, l, b, e),
        Message::RemoveDatabases(w) => databases_removed(a, w, b, e),
        Message::DatabaseRemoved(k) => list_forgotten(a, k, b, e),
        Message::RemovePackages(w) => packages_removed(a, w, b, e),
        Message::RemoveCache => b == a && e =~= seq![Effect::RemoveCache],
        Message::FetchSelfReleases => {
            &&& b == (Gui { state: GuiState { fetching_releases: true, ..a.state }, ..a })
            &&& e =~= seq![Effect::FetchSelfReleases]
        },
        Message::PopulateSelfReleases(r) => self_releases_taken(a, r, b, e),
        Message::PickListVersionSelected(v) => {
            &&& b == (Gui { state: GuiState { pick_list_selected_releases: v, ..a.state }, ..a })
            &&& e.len() == 0
        },
        Message::ChangeVersion => version_change_started(a, b, e),
        Message::VersionChanged(_) => {
            &&& b == (Gui {
                state: GuiState { installing_release: false, installed_release: true, ..a.state },
                ..a
            })
            &&& e.len() == 0
        },
        Message::CheckConnection => {
            &&& b == (Gui { controls: Controls { checking_connection: true }, ..a })
            &&& e =~= seq![Effect::CheckConnection]
        },
        Message::ConnectionChecked(_) => {
            &&& b == (Gui { controls: Controls { checking_connection: false }, ..a })
            &&& e.len() == 0
        },
        _ => true,
    }
}

/// `b` and `e` follow from the message at `now`: a message that only
/// changes a setting changes it and saves the settings (and syncs again
/// when it changes which lists are followed for updates); any other is
/// handled as `handled` says.
pub open spec fn updated(a: Gui, m: Message, now: i64, b: Gui, e: Seq<Effect>) -> bool {
    match setting_changed(a.settings, m) {
        Some(n) => {
            &&& b == (Gui { settings: n, ..a })
            &&& e =~= if resyncs(m) {
                seq![Effect::SaveSettings, Effect::Sync]
            } else {
                seq![Effect::SaveSettings]
            }
        },
        None => handled(a, m, now, b, e),
    }
}

/// Whether the message changes which lists are followed for updates.
fn resyncs_after(message: &Message) -> (r: bool)
    ensures
        r == resyncs(*message),
{
    match message {
        Message::UpdateDailyLatest(_) => true,
        Message::UpdateExperimentalLatest(_) => true,
        Message::UpdatePatchLatest(_) => true,
        Message::UpdateStableLatest(_) => true,
        Message::UpdateLts(_) => true,
        _ => false,
    }
}

impl Gui {
    /// Handles a message about packages, files and installations.
    #[verifier::rlimit(40)]
    fn handle_packages(&mut self, message: Message, now: i64) -> (e: Vec<Effect>)
        requires
            wf(*old(self)),
            expected(*old(self), message),
        ensures
            wf(*final(self)),
            handled(*old(self), message, now, *final(self), e@),
    {
        proof {
            reveal(handled);
        }
        match message {
            Message::PackageMessage((i, pm)) => self.on_package(i, pm),
            Message::RecentFileMessage((file, rm)) => self.on_recent_file(file, rm, now),
            Message::Bookmark(p) => self.on_bookmark(p),
            Message::CheckAvailability(outcome) => self.on_availability(outcome),
            Message::InstallPackage(p) => self.on_install(p),
            Message::CancelInstall(p) => {
                self.end_install(&p);
                Vec::new()
            },
            Message::PackageInstalled(p) => {
                self.end_install(&p);
                let mut e: Vec<Effect> = Vec::new();
                e.push(Effect::SyncInstalled);
                e
            },
            Message::PackageRemoved(p) => self.on_removed(p),
            Message::OpenBlender(n) => {
                let mut e: Vec<Effect> = Vec::new();
                e.push(Effect::OpenBlender { name: n, file: None });
                e
            },
            Message::OpenBlenderWithFile(n) => self.open_with_file(n, now),
            Message::SelectFile => {
                let mut e: Vec<Effect> = Vec::new();
                e.push(Effect::SelectFile);
                e
            },
            Message::FileSelected(f) => {
                self.file_path = Some(f);
                Vec::new()
            },
            Message::OpenBrowser(url) => {
                let mut e: Vec<Effect> = Vec::new();
                e.push(Effect::OpenBrowser(url));
                e
            },
            _ => self.handle_lists(message),
        }
    }

    /// Handles a message about release lists, locations, the launcher's
    /// own releases and the connection.
    #[verifier::rlimit(40)]
    fn handle_lists(&mut self, message: Message) -> (e: Vec<Effect>)
        requires
            wf(*old(self)),
            expected(*old(self), message),
        ensures
            wf(*final(self)),
            !(message is PackageMessage || message is RecentFileMessage || message is Bookmark
                || message is CheckAvailability || message is InstallPackage || message is CancelInstall
                || message is PackageInstalled || message is PackageRemoved || message is OpenBlender
                || message is OpenBlenderWithFile || message is SelectFile || message is FileSelected
                || message is OpenBrowser) ==> handled(*old(self), message, 0, *final(self), e@),
    {
        proof {
            reveal(handled);
        }
        match message {
            Message::CheckForUpdates => self.check_for_updates(),
            Message::UpdatesChecked(lists) => self.updates_checked(lists),
            Message::FetchAll => self.fetch_all(),
            Message::AllFetched(lists) => self.all_fetched(lists),
            Message::FetchDailyLatest => self.fetch_list(ListKind::DailyLatest),
            Message::DailyLatestFetched((_, l)) => self.list_fetched(ListKind::DailyLatest, l),
            Message::FetchDailyArchive => self.fetch_list(ListKind::DailyArchive),
            Message::DailyArchiveFetched((_, l)) => self.list_fetched(ListKind::DailyArchive, l),
            Message::FetchExperimentalLatest => self.fetch_list(ListKind::ExperimentalLatest),
            Message::ExperimentalLatestFetched((_, l)) => self.list_fetched(ListKind::ExperimentalLatest, l),
            Message::FetchExperimentalArchive => self.fetch_list(ListKind::ExperimentalArchive),
            Message::ExperimentalArchiveFetched((_, l)) => self.list_fetched(ListKind::ExperimentalArchive, l),
            Message::FetchPatchLatest => self.fetch_list(ListKind::PatchLatest),
            Message::PatchLatestFetched((_, l)) => self.list_fetched(ListKind::PatchLatest, l),
            Message::FetchPatchArchive => self.fetch_list(ListKind::PatchArchive),
            Message::PatchArchiveFetched((_, l)) => self.list_fetched(ListKind::PatchArchive, l),
            Message::FetchStableLatest => self.fetch_list(ListKind::StableLatest),
            Message::StableLatestFetched((_, l)) => self.list_fetched(ListKind::StableLatest, l),
            Message::FetchStableArchive => self.fetch_list(ListKind::StableArchive),
            Message::StableArchiveFetched((_, l)) => self.list_fetched(ListKind::StableArchive, l),
            Message::FetchLts => self.fetch_list(ListKind::Lts),
            Message::LtsFetched((_, l)) => self.list_fetched(ListKind::Lts, l),
            Message::ChangeLocation(l) => {
                let mut e: Vec<Effect> = Vec::new();
                e.push(Effect::ChooseDirectory(l));
                e
            },
            Message::LocationChosen((l, dir)) => self.set_location(l, dir),
            Message::ResetLocation(l) => self.reset_location(l),
            Message::RemoveDatabases(w) => self.remove_databases(w),
            Message::DatabaseRemoved(k) => self.database_removed(k),
            Message::RemovePackages(w) => self.remove_packages(w),
            Message::RemoveCache => {
                let mut e: Vec<Effect> = Vec::new();
                e.push(Effect::RemoveCache);
                e
            },
            Message::FetchSelfReleases => {
                self.state.fetching_releases = true;
                let mut e: Vec<Effect> = Vec::new();
                e.push(Effect::FetchSelfReleases);
                e
            },
            Message::PopulateSelfReleases(r) => self.populate_self_releases(r),
            Message::PickListVersionSelected(v) => {
                self.state.pick_list_selected_releases = v;
                Vec::new()
            },
            Message::ChangeVersion => self.change_version(),
            Message::VersionChanged(_) => {
                self.state.installing_release = false;
                self.state.installed_release = true;
                Vec::new()
            },
            Message::CheckConnection => {
                self.controls.checking_connection = true;
                let mut e: Vec<Effect> = Vec::new();
                e.push(Effect::CheckConnection);
                e
            },
            Message::ConnectionChecked(_) => {
                self.controls.checking_connection = false;
                Vec::new()
            },
            _ => Vec::new(),
        }
    }

    /// Acts on a message at `now` (seconds since the Unix epoch): changes
    /// the state and tells what outside work follows, in order.
    pub fn update_message(&mut self, message: Message, now: i64) -> (e: Vec<Effect>)
        requires
            wf(*old(self)),
            expected(*old(self), message),
        ensures
            wf(*final(self)),
            updated(*old(self), message, now, *final(self), e@),
    {
        if apply_setting(&mut self.settings, &message) {
            let mut e: Vec<Effect> = Vec::new();
            e.push(Effect::SaveSettings);
            if resyncs_after(&message) {
                e.push(Effect::Sync);
            }
            return e;
        }
        self.handle_packages(message, now)
    }
}

/// The window's title: the name, with the number of updates available
/// where there are any.
pub open spec fn title_spec(updates: Option<usize>) -> Seq<char> {
    match updates {
        Some(n) => "Ablavema - "@ + crate::text::decimal_spec(n as nat) + " update"@ + (if n > 1 {
            "s"@
        } else {
            Seq::empty()
        }) + " available!"@,
        None => "Ablavema"@,
    }
}

impl Gui {
    /// The window at launch: the lists merged, the default package
    /// forgotten when it is no longer installed (then the settings are to
    /// be saved), the launcher's releases listed, the running version
    /// selected, and no installation under way.
    pub fn new(
        releases: Releases,
        settings: Settings,
        dirs: ProjectDirs,
        file_path: Option<String>,
        self_releases: Option<Vec<Release>>,
        current_version: &str,
    ) -> (r: (Gui, Vec<Effect>))
        requires
            all_listed(&releases).len() <= usize::MAX,
            unique_paths(settings.recent_files.0@),
            no_duplicates(settings.bookmarks@),
        ensures
            wf(r.0),
            r.0.releases == releases,
            views(r.0.packages@) == merged(views(all_listed(&releases))),
            r.0.installing@.len() == 0,
            !r.0.installing_any && !r.0.fetching,
            r.0.file_path == file_path,
            r.0.dirs == dirs,
            r.0.self_releases == self_releases,
            r.0.recent_files@.to_multiset() == settings.recent_files.0@.to_multiset(),
            crate::gui::tabs::recent_files::newest_first(r.0.recent_files@),
            r.0.state.pick_list_selected_releases@ == current_version@,
            match self_releases {
                Some(v) => r.0.state.release_versions@ == crate::self_updater::release_versions(v@),
                None => r.0.state.release_versions@.len() == 0,
            },
            !r.0.state.fetching_releases && !r.0.state.installing_release && !r.0.state.installed_release,
            !r.0.controls.checking_connection,
            match settings.default_package {
                Some(d) if !holds(releases.installed.0@, d) => {
                    &&& r.0.settings == (Settings { default_package: None, ..settings })
                    &&& r.1@ =~= seq![Effect::SaveSettings]
                },
                _ => r.0.settings == settings && r.1@.len() == 0,
            },
    {
        let packages = releases.build_vec();
        let mut settings = settings;
        let mut e: Vec<Effect> = Vec::new();
        let forget = match &settings.default_package {
            Some(d) => !crate::sorting::contains_package(&releases.installed.0, d),
            None => false,
        };
        if forget {
            settings.default_package = None;
            e.push(Effect::SaveSettings);
        }
        let mut state = GuiState::new(current_version);
        match &self_releases {
            Some(v) => state.release_versions = crate::self_updater::versions_of(v),
            None => {},
        }
        let recent_files = settings.recent_files.to_vec();
        let gui = Gui {
            releases,
            packages,
            installing: Vec::new(),
            file_path,
            recent_files,
            settings,
            dirs,
            state,
            controls: Controls::default(),
            self_releases,
            fetching: false,
            installing_any: false,
        };
        (gui, e)
    }

    /// The window's title: the name, with the number of updates available
    /// where there are any.
    pub fn title(&self) -> (r: String)
        requires
            self.releases.daily_latest.packages@.len() + self.releases.experimental_latest.packages@.len()
                + self.releases.patch_latest.packages@.len() + self.releases.stable_latest.packages@.len()
                + self.releases.lts.packages@.len() <= usize::MAX,
        ensures
            r@ == title_spec(self.releases.count_updates_spec().all),
    {
        match self.releases.count_updates().all {
            Some(n) => {
                let plural = if n > 1 {
                    "s"
                } else {
                    ""
                };
                proof {
                    reveal_strlit("");
                }
                String::from_str("Ablavema - ").concat(crate::text::decimal(n).as_str()).concat(
                    " update",
                ).concat(plural).concat(" available!")
            },
            None => String::from_str("Ablavema"),
        }
    }
}

/// The list of that kind.
fn list_ref(r: &Releases, kind: ListKind) -> (l: &Vec<Package>)
    ensures
        l@ == list_of(*r, kind),
{
    match kind {
        ListKind::DailyLatest => &r.daily_latest.packages,
        ListKind::DailyArchive => &r.daily_archive.packages,
        ListKind::ExperimentalLatest => &r.experimental_latest.packages,
        ListKind::ExperimentalArchive => &r.experimental_archive.packages,
        ListKind::PatchLatest => &r.patch_latest.packages,
        ListKind::PatchArchive => &r.patch_archive.packages,
        ListKind::StableLatest => &r.stable_latest.packages,
        ListKind::StableArchive => &r.stable_archive.packages,
        ListKind::Lts => &r.lts.packages,
    }
}

impl Gui {
    /// Whether the message can be acted on in this state: the package it
    /// names is listed, the file it opens has a file name, and so on.
    pub fn is_expected(&self, message: &Message) -> (r: bool)
        ensures
            r == expected(*self, *message),
    {
        match message {
            Message::PackageMessage((i, _)) => *i < self.packages.len(),
            Message::RecentFileMessage((file, rm)) => match rm {
                RecentFileMessage::OpenWithLastBlender(_) => file_name(file.as_str()).is_some(),
                RecentFileMessage::OpenWithDefaultBlender => file_name(file.as_str()).is_some()
                    && self.settings.default_package.is_some(),
                _ => true,
            },
            Message::CheckAvailability(outcome) => match outcome {
                Some((available, for_install, p)) => {
                    if *for_install && !*available {
                        contains_package(list_ref(&self.releases, list_kind(&p.build)), p)
                    } else {
                        true
                    }
                },
                None => true,
            },
            Message::CancelInstall(p) => contains_package(&self.installing, p),
            Message::PackageInstalled(p) => contains_package(&self.installing, p),
            Message::OpenBlenderWithFile(_) => match &self.file_path {
                Some(f) => file_name(f.as_str()).is_some(),
                None => false,
            },
            Message::ChangeVersion => self.self_releases.is_some(),
            _ => true,
        }
    }

    /// Acts on the message where it can be acted on in this state (see
    /// `is_expected`), as `update_message` does; otherwise changes nothing
    /// and gives `None`.
    pub fn try_update_message(&mut self, message: Message, now: i64) -> (r: Option<Vec<Effect>>)
        requires
            wf(*old(self)),
        ensures
            wf(*final(self)),
            match r {
                Some(e) => expected(*old(self), message) && updated(*old(self), message, now, *final(self), e@),
                None => !expected(*old(self), message) && *final(self) == *old(self),
            },
    {
        if self.is_expected(&message) {
            Some(self.update_message(message, now))
        } else {
            None
        }
    }
}

} // verus!
