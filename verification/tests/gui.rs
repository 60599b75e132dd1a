use ablavema::gui::extra::{BuildTypeSettings, Choice, Location};
use ablavema::gui::message::{Effect, Gui, Message, ProjectDirs};
use ablavema::gui::package::{PackageCommand, PackageMessage};
use ablavema::gui::tabs::recent_files::RecentFileMessage;
use ablavema::gui::tabs::Tab;
use ablavema::gui::controls::{connection_warning_shown, controls_enabled, filter_label, Controls};
use ablavema::gui::sort_by::SortBy;
use ablavema::gui::tabs::packages::{empty_list_text, open_default_message, open_default_with_file_message, row_is_odd, row_message, shown_packages};
use ablavema::gui::tabs::settings::{choice_of, locations_changeable, remove_databases_enabled, remove_packages_enabled, reset_location_enabled};
use ablavema::releases::installed::Installed;
use ablavema::package::{Build, Os, Package, PackageState, PackageStatus};
use ablavema::releases::{ListKind, ReleaseList, Releases};
use ablavema::self_updater::Release;
use ablavema::settings::Settings;

fn pkg(name: &str, version: &str, build: Build, date: i64) -> Package {
    let mut p = Package::default();
    p.name = name.to_string();
    p.version = version.to_string();
    p.build = build;
    p.date = date;
    p.os = Os::Linux;
    p
}

fn dirs() -> ProjectDirs {
    ProjectDirs { config: "/cfg".to_string(), data_local: "/data".to_string(), cache: "/cache".to_string() }
}

fn gui_with(releases: Releases, settings: Settings) -> Gui {
    Gui::new(releases, settings, dirs(), None, None, "0.4.2").0
}

fn plain() -> Gui {
    let mut r = Releases::new();
    r.stable_archive.packages.push(pkg("blender-2.93.0", "2.93.0", Build::StableArchive, 1));
    r.stable_archive.packages.push(pkg("blender-2.83.0", "2.83.0", Build::StableArchive, 2));
    gui_with(r, Settings::defaults("/cfg".to_string(), "/data".to_string(), "/cache".to_string(), 0))
}

#[test]
fn new_window_merges_lists_and_forgets_a_missing_default() {
    let mut s = Settings::defaults(String::new(), String::new(), String::new(), 0);
    s.default_package = Some(pkg("gone", "2.93.0", Build::StableArchive, 1));
    let mut r = Releases::new();
    r.stable_archive.packages.push(pkg("blender-2.93.0", "2.93.0", Build::StableArchive, 1));
    let (g, e) = Gui::new(r, s, dirs(), Some("/x.blend".to_string()), Some(vec![Release { version: "0.4.3".to_string() }]), "0.4.2");
    assert!(g.settings.default_package.is_none());
    assert!(matches!(e.as_slice(), [Effect::SaveSettings]));
    assert_eq!(g.packages.len(), 1);
    assert_eq!(g.state.release_versions, vec!["0.4.3".to_string()]);
    assert_eq!(g.state.pick_list_selected_releases, "0.4.2");
    assert_eq!(g.file_path, Some("/x.blend".to_string()));
    assert_eq!(g.title(), "Ablavema");
}

#[test]
fn title_counts_updates() {
    let mut r = Releases::new();
    for (i, status) in [PackageStatus::Update, PackageStatus::Update].iter().enumerate() {
        let mut p = pkg(&format!("d{}", i), "3.0.0", Build::DailyLatest("master".to_string()), i as i64);
        p.status = *status;
        r.daily_latest.packages.push(p);
    }
    let g = gui_with(r, Settings::defaults(String::new(), String::new(), String::new(), 0));
    assert_eq!(g.title(), "Ablavema - 2 updates available!");
    let mut r1 = Releases::new();
    let mut p = pkg("l", "2.93.1", Build::Lts, 1);
    p.status = PackageStatus::Update;
    r1.lts.packages.push(p);
    let g1 = gui_with(r1, Settings::defaults(String::new(), String::new(), String::new(), 0));
    assert_eq!(g1.title(), "Ablavema - 1 update available!");
}

#[test]
fn setting_messages_change_settings_and_save() {
    let mut g = plain();
    let e = g.update_message(Message::TabChanged(Tab::Settings), 0);
    assert_eq!(g.settings.tab, Tab::Settings);
    assert!(matches!(e.as_slice(), [Effect::SaveSettings]));
    let e = g.update_message(Message::UpdateLts(Choice::Disable), 0);
    assert!(!g.settings.update_lts);
    assert!(matches!(e.as_slice(), [Effect::SaveSettings, Effect::Sync]));
    g.update_message(Message::FilterStableArchiveChanged(false), 0);
    assert!(!g.settings.filters.stable_archive && !g.settings.filters.all);
    g.update_message(Message::FilterAllChanged(true), 0);
    assert!(g.settings.filters.stable_archive && g.settings.filters.all);
    g.update_message(Message::MinutesBetweenUpdatesChanged(5000), 0);
    assert_eq!(g.settings.minutes_between_updates, 1440);
    g.update_message(Message::BypassLauncher(Choice::Enable), 0);
    assert!(g.settings.bypass_launcher);
}

#[test]
fn bookmarking_toggles_and_keeps_only_listed_names() {
    let mut g = plain();
    g.update_message(Message::Bookmark(pkg("blender-2.93.0", "2.93.0", Build::StableArchive, 1)), 0);
    assert_eq!(g.settings.bookmarks.0, vec!["blender-2.93.0".to_string()]);
    g.update_message(Message::Bookmark(pkg("unlisted", "2.93.0", Build::StableArchive, 1)), 0);
    assert_eq!(g.settings.bookmarks.0, vec!["blender-2.93.0".to_string()]);
    g.update_message(Message::Bookmark(pkg("blender-2.93.0", "2.93.0", Build::StableArchive, 1)), 0);
    assert!(g.settings.bookmarks.0.is_empty());
}

#[test]
fn installs_start_and_end() {
    let mut g = plain();
    let p = pkg("blender-2.93.0", "2.93.0", Build::StableArchive, 1);
    g.update_message(Message::InstallPackage(p.clone()), 0);
    assert!(g.installing_any);
    assert_eq!(g.installing.len(), 1);
    let e = g.update_message(Message::PackageInstalled(p.clone()), 0);
    assert!(matches!(e.as_slice(), [Effect::SyncInstalled]));
    assert!(g.installing.is_empty() && !g.installing_any);
    g.update_message(Message::InstallPackage(p.clone()), 0);
    g.update_message(Message::CancelInstall(p), 0);
    assert!(g.installing.is_empty() && !g.installing_any);
}

#[test]
fn unavailable_packages_are_dropped_from_their_list() {
    let mut g = plain();
    let p = pkg("blender-2.83.0", "2.83.0", Build::StableArchive, 2);
    let e = g.update_message(Message::CheckAvailability(Some((false, true, p.clone()))), 0);
    assert_eq!(g.releases.stable_archive.packages.len(), 1);
    assert!(matches!(&e[0], Effect::SaveDatabase(ListKind::StableArchive)));
    assert!(matches!(&e[1], Effect::ShowMessage(t) if t == "Package 'blender-2.83.0' is no longer available."));
    assert!(matches!(&e[2], Effect::Sync));
    let e = g.update_message(Message::CheckAvailability(Some((true, true, p.clone()))), 0);
    assert!(matches!(&e[..], [Effect::InstallPackage(q)] if q.name == "blender-2.83.0"));
    let e = g.update_message(Message::CheckAvailability(None), 0);
    assert!(matches!(e.as_slice(), [Effect::Sync]));
}

#[test]
fn acting_on_a_listed_package_goes_to_the_package() {
    let mut g = plain();
    let e = g.update_message(Message::PackageMessage((0, PackageMessage::SetDefault)), 0);
    assert!(matches!(e.as_slice(), [Effect::Package(PackageCommand::SaveSettings)]));
    assert_eq!(g.settings.default_package.as_ref().unwrap().name, g.packages[0].name);
    let e = g.update_message(Message::PackageMessage((0, PackageMessage::InstallationProgress(ablavema::gui::package::Progress::Started))), 0);
    assert!(matches!(e.as_slice(), [Effect::Package(PackageCommand::Nothing)]));
    assert!(matches!(g.packages[0].state, PackageState::Downloading));
}

#[test]
fn removing_the_default_package_forgets_it() {
    let mut g = plain();
    let p = pkg("blender-2.93.0", "2.93.0", Build::StableArchive, 1);
    g.settings.default_package = Some(p.clone());
    let e = g.update_message(Message::PackageRemoved(p), 0);
    assert!(g.settings.default_package.is_none());
    assert!(matches!(&e[..], [Effect::SaveSettings, Effect::CheckAvailability { for_install: false, .. }]));
}

#[test]
fn opening_a_file_records_it() {
    let mut g = plain();
    g.file_path = Some("/work/scene.blend".to_string());
    let e = g.update_message(Message::OpenBlenderWithFile("blender-2.93.0".to_string()), 77);
    assert_eq!(g.settings.recent_files.0.len(), 1);
    assert_eq!(g.settings.recent_files.0[0].name, "scene.blend");
    assert_eq!(g.settings.recent_files.0[0].last_opened_on, 77);
    assert!(matches!(&e[..], [Effect::SaveSettings, Effect::OpenBlender { name, file: Some(f) }] if name == "blender-2.93.0" && f == "/work/scene.blend"));
    let e = g.update_message(Message::RecentFileMessage(("/work/scene.blend".to_string(), RecentFileMessage::Remove)), 0);
    assert!(g.settings.recent_files.0.is_empty() && g.recent_files.is_empty());
    assert!(matches!(e.as_slice(), [Effect::SaveSettings]));
    g.update_message(Message::RecentFileMessage(("/work/other.blend".to_string(), RecentFileMessage::Select)), 0);
    assert_eq!(g.file_path, Some("/work/other.blend".to_string()));
}

#[test]
fn fetching_a_list_takes_it_and_puts_it_back() {
    let mut g = plain();
    let e = g.update_message(Message::FetchStableArchive, 0);
    assert!(g.fetching);
    assert!(g.releases.stable_archive.packages.is_empty());
    let list = match e.into_iter().next() {
        Some(Effect::Fetch((ListKind::StableArchive, l))) => l,
        _ => panic!("expected a fetch"),
    };
    assert_eq!(list.packages.len(), 2);
    let e = g.update_message(Message::StableArchiveFetched((true, list)), 0);
    assert!(!g.fetching);
    assert_eq!(g.releases.stable_archive.packages.len(), 2);
    assert!(matches!(e.as_slice(), [Effect::Sync]));
}

#[test]
fn locations_move_and_reset() {
    let mut g = plain();
    let e = g.update_message(Message::LocationChosen((Location::Packages, "/new".to_string())), 0);
    assert_eq!(g.settings.packages_dir, "/new");
    assert!(matches!(e.as_slice(), [Effect::SaveSettings, Effect::Sync]));
    let e = g.update_message(Message::ResetLocation(Location::Packages), 0);
    assert_eq!(g.settings.packages_dir, "/data");
    assert!(matches!(e.as_slice(), [Effect::SaveSettings, Effect::Sync]));
    let e = g.update_message(Message::ResetLocation(Location::Cache), 0);
    assert!(matches!(e.as_slice(), [Effect::SaveSettings]));
    let e = g.update_message(Message::RemoveDatabases(BuildTypeSettings::StableArchive), 0);
    assert!(matches!(e.as_slice(), [Effect::RemoveDatabases(BuildTypeSettings::StableArchive), Effect::Sync]));
    g.update_message(Message::DatabaseRemoved(ListKind::StableArchive), 0);
    assert!(g.releases.stable_archive.packages.is_empty());
}

#[test]
fn removing_all_databases_or_packages_removes_their_directory() {
    let mut g = plain();
    let e = g.update_message(Message::RemoveDatabases(BuildTypeSettings::All), 0);
    assert!(matches!(e.as_slice(), [Effect::RemoveDirectory(d), Effect::Sync] if d == "/cfg"));
    assert!(g.releases.stable_archive.packages.is_empty());
    assert!(g.releases.daily_latest.packages.is_empty());
    let e = g.update_message(Message::RemovePackages(BuildTypeSettings::All), 0);
    assert!(matches!(e.as_slice(), [Effect::RemoveDirectory(d), Effect::Sync] if d == "/data"));
}

#[test]
fn the_self_updater_tab_tracks_releases() {
    let mut g = plain();
    g.update_message(Message::FetchSelfReleases, 0);
    assert!(g.state.fetching_releases);
    g.update_message(Message::PopulateSelfReleases(Some(vec![Release { version: "0.4.3".to_string() }, Release { version: "0.4.2".to_string() }])), 0);
    assert!(!g.state.fetching_releases);
    assert_eq!(g.state.release_versions, vec!["0.4.3".to_string(), "0.4.2".to_string()]);
    g.update_message(Message::PickListVersionSelected("0.4.3".to_string()), 0);
    let e = g.update_message(Message::ChangeVersion, 0);
    assert!(g.state.installing_release);
    assert!(matches!(&e[..], [Effect::ChangeSelfVersion { releases, version }] if releases.len() == 2 && version == "0.4.3"));
    g.update_message(Message::VersionChanged(()), 0);
    assert!(!g.state.installing_release && g.state.installed_release);
    g.update_message(Message::CheckConnection, 0);
    assert!(g.controls.checking_connection);
    g.update_message(Message::ConnectionChecked(()), 0);
    assert!(!g.controls.checking_connection);
}

#[test]
fn syncing_reads_installed_packages() {
    let mut g = plain();
    g.sync(vec![pkg("blender-2.93.0", "2.93.0", Build::StableArchive, 1)]);
    assert_eq!(g.releases.installed.0.len(), 1);
    assert!(matches!(g.releases.stable_archive.packages[0].state, PackageState::Installed));
    assert!(matches!(g.packages[0].state, PackageState::Installed));
    let _unused = ReleaseList::new();
}

#[test]
fn messages_that_cannot_be_acted_on_change_nothing() {
    let mut g = plain();
    assert!(!g.is_expected(&Message::OpenBlenderWithFile("blender-2.93.0".to_string())));
    assert!(g.try_update_message(Message::OpenBlenderWithFile("blender-2.93.0".to_string()), 0).is_none());
    assert!(g.file_path.is_none());
    assert!(g.try_update_message(Message::CancelInstall(pkg("x", "1.0.0", Build::Lts, 0)), 0).is_none());
    let e = g.try_update_message(Message::RemoveCache, 0);
    assert!(matches!(e.as_deref(), Some([Effect::RemoveCache])));
}

#[test]
fn the_packages_tab_filters_then_sorts_stably() {
    let mut g = plain();
    let by_version = shown_packages(&g.packages, &g.settings.filters, &g.settings.bookmarks, SortBy::VersionAscending);
    assert_eq!(by_version.len(), 2);
    assert_eq!(g.packages[by_version[0]].version, "2.83.0");
    assert_eq!(g.packages[by_version[1]].version, "2.93.0");
    let by_date = shown_packages(&g.packages, &g.settings.filters, &g.settings.bookmarks, SortBy::DateAscending);
    assert_eq!(g.packages[by_date[0]].date, 1);
    g.settings.filters.stable_archive = false;
    g.settings.filters.all = false;
    assert!(shown_packages(&g.packages, &g.settings.filters, &g.settings.bookmarks, SortBy::NameAscending).is_empty());
    assert_eq!(empty_list_text(true), "Fetching...");
    assert_eq!(empty_list_text(false), "No packages");
}

#[test]
fn the_packages_tab_buttons_need_a_default() {
    let mut g = plain();
    assert!(open_default_message(&g.settings.default_package).is_none());
    g.settings.default_package = Some(g.packages[0].clone());
    let name = g.packages[0].name.clone();
    assert!(matches!(open_default_message(&g.settings.default_package), Some(Message::OpenBlender(n)) if n == name));
    assert!(open_default_with_file_message(&g.settings.default_package, &None).is_none());
    assert!(matches!(
        open_default_with_file_message(&g.settings.default_package, &Some("/a.blend".to_string())),
        Some(Message::OpenBlenderWithFile(n)) if n == name
    ));
}

#[test]
fn side_panel_and_settings_buttons_act_when_they_can() {
    assert!(controls_enabled(true, false, false));
    assert!(!controls_enabled(false, false, false));
    assert!(!controls_enabled(true, true, false));
    assert!(!controls_enabled(true, false, true));
    assert!(Controls { checking_connection: false }.reconnect_enabled());
    assert!(!Controls { checking_connection: true }.reconnect_enabled());
    assert_eq!(filter_label("Daily (latest)", Some(3)), "Daily (latest) [3]");
    assert_eq!(filter_label("Updates", None), "Updates");
    assert!(matches!(choice_of(true), Choice::Enable));
    assert!(!locations_changeable(true));
    assert!(reset_location_enabled("/new", "/data"));
    assert!(!reset_location_enabled("/data", "/data"));
    assert!(remove_databases_enabled(BuildTypeSettings::All, false));
    assert!(!remove_databases_enabled(BuildTypeSettings::Lts, false));
    let installed = Installed(vec![pkg("blender-2.93.0", "2.93.0", Build::StableArchive, 1)]);
    assert!(remove_packages_enabled(&installed, BuildTypeSettings::StableArchive));
    assert!(!remove_packages_enabled(&installed, BuildTypeSettings::Lts));
    assert!(remove_packages_enabled(&Installed(Vec::new()), BuildTypeSettings::All));
}

#[test]
fn a_package_row_offers_what_its_state_allows() {
    let mut p = pkg("blender-2.93.0", "2.93.0", Build::StableArchive, 1);
    assert!(matches!(p.buttons_acting(&None, false, true, false).as_slice(), [PackageMessage::Bookmark, PackageMessage::Install]));
    assert!(matches!(p.buttons_acting(&None, false, false, false).as_slice(), [PackageMessage::Bookmark]));
    p.state = PackageState::Installed;
    let d = Some(p.clone());
    assert!(matches!(
        p.buttons_acting(&d, true, true, false).as_slice(),
        [PackageMessage::Bookmark, PackageMessage::OpenBlender, PackageMessage::OpenBlenderWithFile, PackageMessage::UnsetDefault, PackageMessage::Remove]
    ));
    assert!(matches!(
        p.buttons_acting(&None, false, true, false).as_slice(),
        [PackageMessage::Bookmark, PackageMessage::OpenBlender, PackageMessage::SetDefault, PackageMessage::Remove]
    ));
    p.status = PackageStatus::Update;
    assert_eq!(p.status_label(), "UPDATE   ");
}

#[test]
fn refreshing_update_marks_twice_changes_nothing_more() {
    let mut list = ReleaseList::new();
    let mut p = pkg("blender-2.93.0", "2.93.0", Build::StableArchive, 1);
    p.status = PackageStatus::Update;
    list.packages.push(p);
    list.refresh_status(false);
    assert_eq!(list.packages[0].status, PackageStatus::Old);
    list.refresh_status(false);
    assert_eq!(list.packages[0].status, PackageStatus::Old);
}

#[test]
fn the_all_filter_follows_the_kinds() {
    let mut g = plain();
    let e = g.update_message(Message::FilterStableArchiveChanged(false), 0);
    assert!(matches!(e.as_slice(), [Effect::SaveSettings]));
    assert!(!g.settings.filters.stable_archive);
    assert!(!g.settings.filters.all);
    g.update_message(Message::FilterStableArchiveChanged(true), 0);
    assert!(g.settings.filters.all);
    g.update_message(Message::FilterAllChanged(false), 0);
    assert!(!g.settings.filters.all && !g.settings.filters.lts && !g.settings.filters.daily_latest);
}

#[test]
fn rows_send_their_package_index_and_alternate_styles() {
    let g = plain();
    let rows = shown_packages(&g.packages, &g.settings.filters, &g.settings.bookmarks, SortBy::VersionAscending);
    let index = g.packages[rows[1]].index;
    assert!(matches!(row_message(&g.packages, &rows, 1, PackageMessage::Install), Message::PackageMessage((i, PackageMessage::Install)) if i == index));
    assert!(row_is_odd(0));
    assert!(!row_is_odd(1));
    assert!(row_is_odd(2));
    assert!(connection_warning_shown(false));
    assert!(!connection_warning_shown(true));
}

#[test]
fn checks_at_launch_add_what_each_list_lacks() {
    let mut r = Releases::new();
    r.lts.packages.push(pkg("blender-2.93.0", "2.93.0", Build::Lts, 1));
    r.stable_archive.packages.push(pkg("blender-2.83.0", "2.83.0", Build::StableArchive, 1));
    let fetched = vec![(ListKind::Lts, vec![pkg("blender-2.93.0", "2.93.0", Build::Lts, 1), pkg("blender-2.93.1", "2.93.1", Build::Lts, 2)])];
    assert!(r.apply_checks(fetched));
    assert_eq!(r.lts.packages.len(), 2);
    assert_eq!(r.lts.packages[0].version, "2.93.1");
    assert_eq!(r.lts.packages[0].status, PackageStatus::New);
    assert_eq!(r.stable_archive.packages.len(), 1);
    let again = vec![(ListKind::Lts, vec![pkg("blender-2.93.1", "2.93.1", Build::Lts, 2)])];
    assert!(!r.apply_checks(again));
    assert_eq!(r.lts.packages.len(), 2);
}
