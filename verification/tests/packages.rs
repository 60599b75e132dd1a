use ablavema::gui::package::{PackageCommand, PackageMessage, Progress};
use ablavema::gui::sort_by::SortBy;
use ablavema::package::{Build, BuildType, Os, Package, PackageState, PackageStatus};
use ablavema::settings::Settings;
use ablavema::sorting::{contains_package, position_of, sort_packages};
use std::cmp::Ordering;

fn pkg(name: &str, version: &str, build: Build, date: i64) -> Package {
    let mut p = Package::default();
    p.name = name.to_string();
    p.version = version.to_string();
    p.build = build;
    p.date = date;
    p.os = Os::Linux;
    p
}

fn settings() -> Settings {
    Settings::defaults("/c".to_string(), "/d".to_string(), "/k".to_string(), 0)
}

#[test]
fn default_package_is_an_old_stable_archive() {
    let p = Package::default();
    assert!(p.name.is_empty());
    assert!(matches!(p.build, Build::StableArchive));
    assert_eq!(p.date, 946684799);
    assert!(matches!(p.state, PackageState::Fetched));
    assert_eq!(p.status, PackageStatus::Old);
    assert!(matches!(p.build_type, BuildType::Unset));
}

#[test]
fn builds_order_by_kind_then_name() {
    let a = Build::DailyLatest("master".to_string());
    let b = Build::DailyArchive("master".to_string());
    assert_eq!(a.compare(&b), Ordering::Less);
    assert_eq!(b.compare(&a), Ordering::Greater);
    let c = Build::DailyLatest("3.0".to_string());
    assert_eq!(c.compare(&a), Ordering::Less);
    assert_eq!(Build::Lts.compare(&Build::Lts), Ordering::Equal);
    assert!(a.is_builder());
    assert!(!Build::StableLatest.is_builder());
    assert!(a.same(&Build::DailyLatest("master".to_string())));
    assert!(!a.same(&b));
}

#[test]
fn releases_order_newest_version_first() {
    let old = pkg("blender-2.83.0", "2.83.0", Build::StableArchive, 10);
    let new = pkg("blender-2.93.0", "2.93.0", Build::StableArchive, 5);
    assert_eq!(new.cmp(&old), Ordering::Less);
    assert!(old.goes_after(&new));
    assert!(!new.goes_after(&old));
}

#[test]
fn builder_builds_order_by_build_then_newest_date() {
    let older = pkg("a", "3.0.0", Build::DailyLatest("master".to_string()), 100);
    let newer = pkg("b", "3.0.0", Build::DailyLatest("master".to_string()), 200);
    assert_eq!(newer.cmp(&older), Ordering::Less);
    let sorted = sort_packages(vec![older, newer]);
    assert_eq!(sorted[0].date, 200);
    assert_eq!(sorted[1].date, 100);
}

#[test]
fn sorting_releases_puts_the_newest_first_and_keeps_all() {
    let v = vec![
        pkg("b283", "2.83.0", Build::StableArchive, 1),
        pkg("b300", "3.0.0", Build::StableArchive, 2),
        pkg("b293", "2.93.0", Build::StableArchive, 3),
    ];
    let sorted = sort_packages(v);
    let names: Vec<&str> = sorted.iter().map(|p| p.name.as_str()).collect();
    assert_eq!(names, vec!["b300", "b293", "b283"]);
}

#[test]
fn packages_are_found_as_the_same_one() {
    let v = vec![
        pkg("x", "2.83.0", Build::StableArchive, 1),
        pkg("y", "2.93.0", Build::StableArchive, 2),
    ];
    let probe = pkg("y", "2.93.0", Build::StableArchive, 99);
    assert!(contains_package(&v, &probe));
    assert_eq!(position_of(&v, &probe), Some(1));
    let other = pkg("z", "2.93.0", Build::StableArchive, 2);
    assert!(!contains_package(&v, &other));
    assert_eq!(position_of(&v, &other), None);
}

#[test]
fn build_type_records_each_list() {
    let mut bt = BuildType::Unset;
    bt.update(&Build::DailyLatest("master".to_string()));
    assert!(matches!(&bt, BuildType::Daily { latest: true, archive: false, name } if name == "master"));
    bt.update(&Build::DailyArchive("other".to_string()));
    assert!(matches!(&bt, BuildType::Daily { latest: true, archive: true, name } if name == "master"));
    bt.update(&Build::Lts);
    assert!(matches!(&bt, BuildType::Daily { latest: true, archive: true, .. }));
    let mut st = BuildType::Unset;
    st.update(&Build::Lts);
    st.update(&Build::StableArchive);
    assert!(matches!(st, BuildType::Stable { latest: false, archive: true, lts: true }));
}

#[test]
fn sort_orders_of_the_listing() {
    let a = pkg("a", "2.83.0", Build::StableArchive, 10);
    let b = pkg("b", "2.93.0", Build::StableArchive, 5);
    assert_eq!(SortBy::NameAscending.get_ordering(&a, &b), Ordering::Less);
    assert_eq!(SortBy::NameDescending.get_ordering(&a, &b), Ordering::Greater);
    assert_eq!(SortBy::DateAscending.get_ordering(&a, &b), Ordering::Greater);
    assert_eq!(SortBy::DateDescending.get_ordering(&a, &b), Ordering::Less);
    assert_eq!(SortBy::VersionAscending.get_ordering(&a, &b), Ordering::Less);
    assert_eq!(SortBy::VersionDescending.get_ordering(&a, &b), Ordering::Greater);
    assert_eq!(SortBy::all().len(), 6);
}

#[test]
fn package_update_installs_step_by_step() {
    let mut s = settings();
    let mut p = pkg("blender", "3.0.0", Build::StableLatest, 1);
    assert!(matches!(p.update(PackageMessage::Install, &mut s), PackageCommand::CheckAvailability(q) if q.name == "blender"));
    assert!(matches!(p.update(PackageMessage::InstallationProgress(Progress::Started), &mut s), PackageCommand::Nothing));
    assert!(matches!(p.state, PackageState::Downloading));
    p.update(PackageMessage::InstallationProgress(Progress::DownloadProgress { downloaded: 5, total: 10 }), &mut s);
    assert!(matches!(p.state, PackageState::Downloading));
    p.update(PackageMessage::InstallationProgress(Progress::FinishedDownloading), &mut s);
    assert!(matches!(p.state, PackageState::Extracting));
    let done = p.update(PackageMessage::InstallationProgress(Progress::FinishedInstalling), &mut s);
    assert!(matches!(p.state, PackageState::Installed));
    assert!(matches!(done, PackageCommand::PackageInstalled(q) if matches!(q.state, PackageState::Installed)));
}

#[test]
fn package_update_errors_and_cancels() {
    let mut s = settings();
    let mut p = pkg("blender", "3.0.0", Build::StableLatest, 1);
    let c = p.update(PackageMessage::InstallationProgress(Progress::Errored("boom".to_string())), &mut s);
    assert!(matches!(&p.state, PackageState::Errored { message } if message == "boom"));
    assert!(matches!(c, PackageCommand::CancelInstall(_)));
    let c = p.update(PackageMessage::Cancel, &mut s);
    assert!(matches!(p.state, PackageState::Fetched));
    assert!(matches!(c, PackageCommand::CancelInstall(q) if matches!(q.state, PackageState::Fetched)));
}

#[test]
fn package_update_sets_and_unsets_the_default() {
    let mut s = settings();
    let mut p = pkg("blender", "3.0.0", Build::StableLatest, 1);
    assert!(matches!(p.update(PackageMessage::SetDefault, &mut s), PackageCommand::SaveSettings));
    assert_eq!(s.default_package.as_ref().map(|d| d.name.clone()), Some("blender".to_string()));
    assert!(matches!(p.update(PackageMessage::UnsetDefault, &mut s), PackageCommand::SaveSettings));
    assert!(s.default_package.is_none());
    assert!(matches!(p.update(PackageMessage::OpenBlender, &mut s), PackageCommand::OpenBlender(n) if n == "blender"));
    assert!(matches!(p.update(PackageMessage::Remove, &mut s), PackageCommand::RemovePackage(_)));
    assert!(matches!(p.update(PackageMessage::Bookmark, &mut s), PackageCommand::Bookmark(_)));
}

#[test]
fn build_types_are_shown_by_group_and_lists() {
    let daily = BuildType::Daily { latest: true, archive: false, name: "master".to_string() };
    assert_eq!(daily.text(), "Daily (latest): master");
    let patch = BuildType::Patch { latest: true, archive: true, name: "D1".to_string() };
    assert_eq!(patch.text(), "Patch (latest and archive): D1");
    let exp = BuildType::Experimental { latest: false, archive: true, name: "x".to_string() };
    assert_eq!(exp.text(), "Experimental (archive): x");
    assert_eq!(BuildType::Stable { latest: false, archive: true, lts: true }.text(), "Stable (archive) | Long-term Support");
    assert_eq!(BuildType::Stable { latest: false, archive: false, lts: true }.text(), "Long-term Support");
    assert_eq!(BuildType::Stable { latest: true, archive: false, lts: false }.text(), "Stable (latest)");
}

#[test]
fn dates_are_shown_with_how_long_ago() {
    let p = pkg("b", "3.0.0", Build::StableArchive, 1637232140);
    assert_eq!(
        p.get_formatted_date_time(1637232140 + 3600 + 60).unwrap(),
        "November 18, 2021 - 10:42:20 (1 hour 1 minute ago)"
    );
    assert_eq!(p.get_formatted_date_time(0).unwrap(), "November 18, 2021 - 10:42:20 (now)");
}

#[test]
fn sorting_keeps_tied_packages_in_their_order() {
    let v = vec![
        pkg("first", "2.93.0", Build::StableArchive, 1),
        pkg("newer", "2.94.0", Build::StableArchive, 2),
        pkg("second", "2.93.0", Build::StableArchive, 3),
    ];
    let r = sort_packages(v);
    let names: Vec<&str> = r.iter().map(|p| p.name.as_str()).collect();
    assert_eq!(names, vec!["newer", "first", "second"]);
}
