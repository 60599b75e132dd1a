use ablavema::gui::filters::Filters;
use ablavema::gui::sort_by::SortBy;
use ablavema::gui::style::Theme;
use ablavema::gui::tabs::recent_files::{RecentFile, RecentFiles};
use ablavema::gui::tabs::Tab;
use ablavema::package::{Build, Package, PackageStatus, PackageState};
use ablavema::settings::{Bookmarks, ModifierKey, Settings};

fn named(name: &str) -> Package {
    let mut p = Package::default();
    p.name = name.to_string();
    p
}

#[test]
fn default_settings() {
    let s = Settings::defaults("/c".to_string(), "/d".to_string(), "/k".to_string(), 10_000);
    assert_eq!(s.tab, Tab::Packages);
    assert!(s.default_package.is_none());
    assert!(!s.bypass_launcher);
    assert_eq!(s.modifier_key, ModifierKey::Shift);
    assert!(s.use_latest_as_default);
    assert!(s.check_updates_at_launch);
    assert_eq!(s.minutes_between_updates, 60);
    assert_eq!(s.databases_dir, "/c");
    assert_eq!(s.packages_dir, "/d");
    assert_eq!(s.cache_dir, "/k");
    assert_eq!(s.last_update_time, 10_000 - 3600);
    assert_eq!(s.sort_by, SortBy::VersionDescending);
    assert_eq!(s.theme, Theme::Dark);
    assert!(s.filters.all && s.filters.lts && !s.filters.updates);
    assert_eq!(Settings::defaults(String::new(), String::new(), String::new(), 5).last_update_time, 5);
}

#[test]
fn minutes_between_updates_stay_within_a_day() {
    let mut s = Settings::defaults(String::new(), String::new(), String::new(), 0);
    s.change_minutes_between_updates(1000);
    assert_eq!(s.minutes_between_updates, 1060);
    s.change_minutes_between_updates(1000);
    assert_eq!(s.minutes_between_updates, 1440);
    s.change_minutes_between_updates(-1500);
    assert_eq!(s.minutes_between_updates, 0);
    s.change_minutes_between_updates(i64::MIN);
    assert_eq!(s.minutes_between_updates, 0);
    s.change_minutes_between_updates(i64::MAX);
    assert_eq!(s.minutes_between_updates, 1440);
}

#[test]
fn bookmarks_toggle_and_clean() {
    let mut b = Bookmarks::default();
    b.update("a".to_string());
    b.update("b".to_string());
    assert!(b.contains("a") && b.contains("b"));
    b.update("a".to_string());
    assert!(!b.contains("a"));
    assert_eq!(b.0, vec!["b".to_string()]);
    b.update("c".to_string());
    b.clean(&vec![named("c")]);
    assert_eq!(b.0, vec!["c".to_string()]);
    assert!(b.has_no_duplicates());
    assert!(!Bookmarks(vec!["x".to_string(), "x".to_string()]).has_no_duplicates());
}

#[test]
fn filters_show_kinds_bookmarks_and_updates() {
    let mut f = Filters::default();
    let mut p = named("p");
    p.build = Build::DailyLatest("master".to_string());
    p.build_type.update(&Build::DailyLatest("master".to_string()));
    let b = Bookmarks::default();
    assert!(f.matches(&p, &b));
    f.daily_latest = false;
    f.refresh_all();
    assert!(!f.all);
    assert!(!f.matches(&p, &b));
    f.set_all(true);
    assert!(f.all && f.daily_latest);
    f.bookmarks = true;
    assert!(!f.matches(&p, &b));
    assert!(f.matches(&p, &Bookmarks(vec!["p".to_string()])));
    f.bookmarks = false;
    f.updates = true;
    assert!(!f.matches(&p, &b));
    p.status = PackageStatus::Update;
    assert!(f.matches(&p, &b));
    f.updates = false;
    f.installed = true;
    assert!(!f.matches(&p, &b));
    p.state = PackageState::Installed;
    assert!(f.matches(&p, &b));
}

#[test]
fn recent_files_keep_one_record_per_path() {
    let mut r = RecentFiles(Vec::new());
    r.insert(RecentFile::new("/w/a.blend", "blender-1".to_string(), 10));
    r.insert(RecentFile::new("/w/b.blend", "blender-1".to_string(), 20));
    r.insert(RecentFile::new("/w/a.blend", "blender-2".to_string(), 30));
    assert_eq!(r.0.len(), 2);
    assert_eq!(r.position("/w/a.blend"), Some(0));
    assert_eq!(r.0[0].last_opened_with, "blender-2");
    assert_eq!(r.0[0].name, "a.blend");
    assert!(r.has_unique_paths());
    let newest: Vec<i64> = r.to_vec().iter().map(|f| f.last_opened_on).collect();
    assert_eq!(newest, vec![30, 20]);
    r.remove("/w/b.blend");
    assert_eq!(r.0.len(), 1);
    r.remove("/w/none.blend");
    assert_eq!(r.0.len(), 1);
    assert!(RecentFile::try_new("/", "x".to_string(), 0).is_none());
}
