use ablavema::package::{Build, BuildType, Os, Package, PackageState, PackageStatus};
use ablavema::releases::installed::Installed;
use ablavema::releases::{list_kind, ListKind, ReleaseList, Releases};
use ablavema::settings::Settings;
use ablavema::gui::extra::BuildTypeSettings;

fn pkg(name: &str, version: &str, build: Build, date: i64) -> Package {
    let mut p = Package::default();
    p.name = name.to_string();
    p.version = version.to_string();
    p.build = build;
    p.date = date;
    p.os = Os::Linux;
    p
}

fn daily(name: &str, date: i64) -> Package {
    pkg(name, "3.0.0", Build::DailyLatest("master".to_string()), date)
}

fn settings() -> Settings {
    Settings::defaults("/c".to_string(), "/d".to_string(), "/k".to_string(), 0)
}

#[test]
fn check_updates_adds_unseen_packages_as_new() {
    let mut list = ReleaseList::new();
    list.packages.push(daily("a", 100));
    let found = list.check_updates(vec![daily("a", 100), daily("b", 200)]);
    assert!(found);
    assert_eq!(list.packages.len(), 2);
    assert_eq!(list.packages[0].name, "b");
    assert_eq!(list.packages[0].status, PackageStatus::New);
    assert_eq!(list.packages[1].status, PackageStatus::Old);
    let again = list.check_updates(vec![daily("a", 100), daily("b", 200)]);
    assert!(!again);
    assert_eq!(list.packages.len(), 2);
}

#[test]
fn get_new_packages_is_none_when_all_are_held() {
    let mut list = ReleaseList::new();
    list.packages.push(daily("a", 100));
    assert!(list.get_new_packages(vec![daily("a", 100)]).is_none());
    let new = list.get_new_packages(vec![daily("c", 300)]).unwrap();
    assert_eq!(new.packages.len(), 1);
    assert_eq!(new.packages[0].name, "c");
}

#[test]
fn take_leaves_the_list_empty() {
    let mut list = ReleaseList::new();
    list.packages.push(daily("a", 100));
    let taken = list.take();
    assert_eq!(taken.packages.len(), 1);
    assert!(list.packages.is_empty());
}

#[test]
fn refresh_state_marks_exactly_the_installed() {
    let mut list = ReleaseList::new();
    list.packages.push(daily("a", 100));
    let mut b = daily("b", 200);
    b.state = PackageState::Installed;
    list.packages.push(b);
    list.refresh_state(&vec![daily("a", 100)]);
    assert!(matches!(list.packages[0].state, PackageState::Installed));
    assert!(matches!(list.packages[1].state, PackageState::Fetched));
}

#[test]
fn refresh_status_marks_newer_builds_of_an_installed_one() {
    let mut list = ReleaseList::new();
    list.packages.push(daily("new", 200));
    let mut old = daily("old", 100);
    old.state = PackageState::Installed;
    list.packages.push(old);
    list.refresh_status(true);
    assert_eq!(list.packages[0].status, PackageStatus::Update);
    assert_eq!(list.packages[1].status, PackageStatus::Old);
    list.refresh_status(false);
    assert_eq!(list.packages[0].status, PackageStatus::Old);
}

#[test]
fn unset_status_takes_update_marks_away() {
    let mut list = ReleaseList::new();
    let mut p = daily("a", 1);
    p.status = PackageStatus::Update;
    list.packages.push(p);
    let mut q = daily("b", 2);
    q.status = PackageStatus::New;
    list.packages.push(q);
    list.unset_status();
    assert_eq!(list.packages[0].status, PackageStatus::Old);
    assert_eq!(list.packages[1].status, PackageStatus::New);
}

#[test]
fn count_updates_counts_each_kind_and_all() {
    let mut r = Releases::new();
    let mut p = daily("a", 1);
    p.status = PackageStatus::Update;
    r.daily_latest.packages.push(p);
    let mut q = pkg("lts", "2.93.1", Build::Lts, 2);
    q.status = PackageStatus::Update;
    r.lts.packages.push(q);
    let c = r.count_updates();
    assert_eq!(c.all, Some(2));
    assert_eq!(c.daily, Some(1));
    assert_eq!(c.lts, Some(1));
    assert_eq!(c.patch, None);
    assert_eq!(Releases::new().count_updates().all, None);
}

#[test]
fn build_vec_merges_lists_by_name() {
    let mut r = Releases::new();
    r.daily_latest.packages.push(daily("a", 1));
    r.daily_archive.packages.push(pkg("a", "3.0.0", Build::DailyArchive("master".to_string()), 1));
    r.stable_archive.packages.push(pkg("s", "2.93.0", Build::StableArchive, 3));
    let v = r.build_vec();
    assert_eq!(v.len(), 2);
    assert_eq!(v[0].name, "a");
    assert_eq!(v[0].index, 0);
    assert!(matches!(&v[0].build_type, BuildType::Daily { latest: true, archive: true, .. }));
    assert_eq!(v[1].name, "s");
    assert_eq!(v[1].index, 1);
    assert!(matches!(v[1].build_type, BuildType::Stable { latest: false, archive: true, lts: false }));
}

#[test]
fn sync_marks_installed_and_updates() {
    let mut r = Releases::new();
    r.daily_latest.packages.push(daily("new", 200));
    r.daily_latest.packages.push(daily("old", 100));
    r.installed.fetch(vec![daily("old", 100)]);
    let s = settings();
    r.sync(&s);
    assert!(matches!(r.daily_latest.packages[1].state, PackageState::Installed));
    assert_eq!(r.daily_latest.packages[0].status, PackageStatus::Update);
}

#[test]
fn lists_are_taken_and_replaced_by_kind() {
    let mut r = Releases::new();
    r.patch_archive.packages.push(daily("x", 1));
    assert_eq!(list_kind(&Build::PatchArchive("p".to_string())), ListKind::PatchArchive);
    let taken = r.take_list(ListKind::PatchArchive);
    assert_eq!(taken.packages.len(), 1);
    assert!(r.patch_archive.packages.is_empty());
    let old = r.replace_list(ListKind::Lts, taken);
    assert!(old.packages.is_empty());
    assert_eq!(r.lts.packages.len(), 1);
}

#[test]
fn remove_package_takes_it_out_of_its_list() {
    let mut r = Releases::new();
    r.stable_archive.packages.push(pkg("a", "2.83.0", Build::StableArchive, 1));
    r.stable_archive.packages.push(pkg("b", "2.93.0", Build::StableArchive, 2));
    let kind = r.remove_package(&pkg("b", "2.93.0", Build::StableArchive, 2));
    assert_eq!(kind, ListKind::StableArchive);
    assert_eq!(r.stable_archive.packages.len(), 1);
    assert_eq!(r.stable_archive.packages[0].name, "a");
}

#[test]
fn installed_packages_come_newest_first() {
    let mut i = Installed(Vec::new());
    i.fetch(vec![daily("a", 1), daily("b", 3), daily("c", 2)]);
    let dates: Vec<i64> = i.0.iter().map(|p| p.date).collect();
    assert_eq!(dates, vec![3, 2, 1]);
    let all = i.selected(BuildTypeSettings::All);
    assert_eq!(all.len(), 3);
    assert!(i.selected(BuildTypeSettings::Lts).is_empty());
    assert_eq!(i.selected(BuildTypeSettings::DailyLatest).len(), 3);
}

#[test]
fn update_default_moves_to_a_newer_release_of_the_series() {
    let mut s = settings();
    s.default_package = Some(pkg("blender-2.93.0", "2.93.0", Build::Lts, 1));
    let mut i = Installed(Vec::new());
    i.fetch(vec![pkg("blender-2.93.1", "2.93.1", Build::Lts, 5), pkg("blender-2.93.0", "2.93.0", Build::Lts, 1)]);
    assert!(i.update_default(&mut s));
    assert_eq!(s.default_package.as_ref().unwrap().name, "blender-2.93.1");
    s.use_latest_as_default = false;
    s.default_package = Some(pkg("blender-2.93.0", "2.93.0", Build::Lts, 1));
    assert!(!i.update_default(&mut s));
    assert_eq!(s.default_package.as_ref().unwrap().name, "blender-2.93.0");
}

#[test]
fn dead_packages_are_taken_away_by_position() {
    let mut list = ReleaseList::new();
    for (i, name) in ["a", "b", "c", "d"].iter().enumerate() {
        let mut p = daily(name, i as i64);
        p.url = format!("https://x/{}", name);
        if *name == "b" {
            p.state = PackageState::Installed;
        }
        list.packages.push(p);
    }
    let c = list.checkable();
    assert_eq!(c, vec![(0, "https://x/a".to_string()), (2, "https://x/c".to_string()), (3, "https://x/d".to_string())]);
    list.remove_dead(&vec![0, 3]);
    let names: Vec<&str> = list.packages.iter().map(|p| p.name.as_str()).collect();
    assert_eq!(names, vec!["b", "c"]);
}

#[test]
fn installed_packages_of_one_date_come_in_reverse_found_order() {
    let mut i = Installed(Vec::new());
    let found = vec![
        pkg("a", "2.93.0", Build::StableArchive, 5),
        pkg("b", "2.94.0", Build::StableArchive, 9),
        pkg("c", "2.93.1", Build::StableArchive, 5),
    ];
    i.fetch(found);
    let names: Vec<&str> = i.0.iter().map(|p| p.name.as_str()).collect();
    assert_eq!(names, vec!["b", "c", "a"]);
}
