use ablavema::helpers::{get_file_stem, is_time_to_update, try_get_file_stem, ReturnOption};
use ablavema::gui::sort_by::SortBy;
use ablavema::gui::tabs::recent_files::RecentFile;
use ablavema::package::{Build, Os, Package};
use ablavema::paths::{file_name, file_stem};
use ablavema::releases::installed::Installed;
use ablavema::settings::{config_path, join_path, portable_settings, Settings};
use std::cmp::Ordering;

fn settings() -> Settings {
    Settings::defaults("/config".to_string(), "/data".to_string(), "/cache".to_string(), 10_000)
}

#[test]
fn file_stem_of_tarballs_drops_both_extensions() {
    assert_eq!(get_file_stem("blender-2.93.0-linux-x64.tar.xz"), "blender-2.93.0-linux-x64");
    assert_eq!(get_file_stem("blender-2.93.0-windows-x64.zip"), "blender-2.93.0-windows-x64");
    assert_eq!(try_get_file_stem("blender-2.79b-linux-glibc219-x86_64.tar.bz2"), Some("blender-2.79b-linux-glibc219-x86_64".to_string()));
    assert_eq!(try_get_file_stem(""), None);
}

#[test]
fn paths_give_names_and_stems() {
    let f = RecentFile::try_new("/home/user/scene.blend", "blender".to_string(), 0);
    assert_eq!(f.map(|f| f.name), Some("scene.blend".to_string()));
    assert_eq!(try_get_file_stem("/home/user/scene.blend"), Some("scene".to_string()));
    assert!(RecentFile::try_new("/", "blender".to_string(), 0).is_none());
}

#[test]
fn time_to_update_after_the_set_minutes() {
    let mut s = settings();
    s.last_update_time = 1_000;
    s.minutes_between_updates = 60;
    assert!(!is_time_to_update(&s, 1_000 + 59 * 60));
    assert!(is_time_to_update(&s, 1_000 + 60 * 60));
    s.minutes_between_updates = 0;
    assert!(is_time_to_update(&s, 1_000));
}

#[test]
fn return_option_hides_zero() {
    assert_eq!(0usize.return_option(), None);
    assert_eq!(3usize.return_option(), Some(3));
}

fn release(version: &str, date: i64) -> Package {
    let mut p = Package::default();
    p.name = format!("blender-{}", version);
    p.version = version.to_string();
    p.build = Build::StableArchive;
    p.date = date;
    p.os = Os::Linux;
    p
}

#[test]
fn versions_compare_as_the_versions_crate_reads_them() {
    let order = |a: &str, b: &str| SortBy::VersionAscending.get_ordering(&release(a, 0), &release(b, 0));
    assert_eq!(order("2.93.1", "2.93.0"), Ordering::Greater);
    assert_eq!(order("2.83.0", "2.93.0"), Ordering::Less);
    assert_eq!(order("3.0.0", "3.0.0"), Ordering::Equal);
    assert!(release("2.93.0", 0) == release("2.93.0", 0));
    assert!(release("2.93.0", 0) != release("2.93.1", 0));
    // The default moves only within the series: the same first two numbers
    // and a third one at least as high.
    let mut s = settings();
    s.use_latest_as_default = true;
    s.default_package = Some(release("2.93.4", 10));
    let installed = Installed(vec![release("2.94.5", 30), release("2.93.3", 25), release("2.93.5", 20)]);
    assert!(installed.update_default(&mut s));
    assert_eq!(s.default_package.map(|p| p.version), Some("2.93.5".to_string()));
}

#[test]
fn file_names_follow_the_unix_rules() {
    assert_eq!(file_name("a/."), Some("a".to_string()));
    assert_eq!(file_name("//a//"), Some("a".to_string()));
    assert_eq!(file_name("a/.."), None);
    assert_eq!(file_name("."), None);
    assert_eq!(file_name(""), None);
    assert_eq!(file_name("/"), None);
    assert_eq!(file_stem(".bashrc"), Some(".bashrc".to_string()));
    assert_eq!(file_stem("/x/a.tar.xz"), Some("a.tar".to_string()));
    assert_eq!(file_stem("/x/a."), Some("a".to_string()));
    assert_eq!(file_stem("/x/..a"), Some(".".to_string()));
}

#[test]
fn portable_mode_keeps_everything_beside_the_executable() {
    let s = portable_settings(settings(), "/opt/ablavema".to_string());
    assert_eq!(s.databases_dir, "/opt/ablavema/databases");
    assert_eq!(s.packages_dir, "/opt/ablavema/packages");
    assert_eq!(s.cache_dir, "/opt/ablavema/cache");
    assert_eq!(s.minutes_between_updates, settings().minutes_between_updates);
    assert_eq!(join_path("/opt/", "x"), "/opt/x");
    assert_eq!(join_path("", "x"), "x");
}

#[test]
fn the_settings_file_is_found_in_three_ways() {
    let env = Some("/etc/ablavema.ron".to_string());
    assert_eq!(config_path(true, env.clone(), "/opt/ablavema".to_string(), "/cfg".to_string()), "/opt/ablavema/config.ron");
    assert_eq!(config_path(false, env, "/opt/ablavema".to_string(), "/cfg".to_string()), "/etc/ablavema.ron");
    assert_eq!(config_path(false, None, "/opt/ablavema".to_string(), "/cfg/".to_string()), "/cfg/config.ron");
}
