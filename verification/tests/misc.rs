use ablavema::gui::extra::{Choice, GuiState};
use ablavema::launch::{checks_updates_at_launch, launch_update_check, opens_window, LaunchCheck};
use ablavema::gui::tabs::self_updater::{release_index, self_updater_action, SelfUpdaterAction};
use ablavema::releases::ListKind;
use ablavema::gui::style::{dark, light, Rgba, Theme};
use ablavema::self_updater::{check_self_updates, Release, SelfUpdater};
use ablavema::settings::{Bookmarks, ModifierKey};
use ablavema::package::{Build, BuildType};

fn rgb(r: u8, g: u8, b: u8) -> Rgba {
    Rgba { r, g, b, a: 255 }
}

#[test]
fn themes_and_their_colours() {
    assert_eq!(Theme::default(), Theme::Dark);
    assert_eq!(Theme::all(), vec![Theme::Light, Theme::Dark]);
    assert_eq!(Theme::Dark.highlight_text(), rgb(255, 255, 255));
    assert_eq!(Theme::Light.highlight_text(), rgb(0, 0, 0));
    let b = light::Button.active();
    assert_eq!(b.background, rgb(219, 219, 219));
    assert_eq!(b.border_radius, 5);
    assert_eq!(b.border_color, Rgba { r: 0, g: 0, b: 0, a: 0 });
    assert_eq!(light::Button.hovered().text_color, rgb(0, 0, 0));
    assert_eq!(light::Button.pressed().background, rgb(86, 128, 194));
    assert_eq!(dark::ButtonTab.disabled().background, rgb(66, 66, 66));
    assert_eq!(dark::ButtonTab.pressed(), dark::ButtonTab.hovered());
    assert_eq!(dark::Checkbox.active(true).background, rgb(83, 121, 180));
    assert_eq!(dark::Checkbox.hovered(false).background, rgb(106, 106, 106));
    assert_eq!(dark::ContainerStatus.style().background, rgb(255, 0, 0));
    assert_eq!(dark::ContainerOdd.style().text_color, rgb(217, 217, 217));
    assert_eq!(light::PickList.menu().selected_background, rgb(241, 241, 241));
    assert_eq!(light::ProgressBar.style().bar, rgb(86, 128, 194));
    assert_eq!(dark::Radio.hovered().dot_color, rgb(83, 121, 180));
    assert_eq!(dark::Rule.style().width, 2);
}

#[test]
fn small_choices() {
    assert!(Choice::Enable.is_enabled());
    assert!(!Choice::Disable.is_enabled());
    assert_eq!(Choice::all(), vec![Choice::Enable, Choice::Disable]);
    assert_eq!(ModifierKey::Control.label(), "ctrl");
    assert_eq!(ModifierKey::all().len(), 3);
    let s = GuiState::new("0.4.2");
    assert_eq!(s.pick_list_selected_releases, "0.4.2");
    assert!(s.release_versions.is_empty());
}

#[test]
fn self_updates_are_the_releases_before_the_running_one() {
    let releases = vec![
        Release { version: "0.4.4".to_string() },
        Release { version: "0.4.3".to_string() },
        Release { version: "0.4.2".to_string() },
    ];
    assert_eq!(SelfUpdater::position(&releases, "0.4.2"), Some(2));
    assert_eq!(SelfUpdater::count_new(&Some(releases.clone()), "0.4.2"), Some(2));
    assert_eq!(check_self_updates(&Some(releases.clone()), "0.4.4"), None);
    assert!(SelfUpdater::from_fetched(Vec::new()).is_none());
    assert_eq!(SelfUpdater::count_new(&None, "0.4.2"), None);
}

#[test]
fn toggling_a_bookmark_twice_restores_the_list() {
    let mut b = Bookmarks(vec!["a".to_string(), "b".to_string()]);
    b.update("c".to_string());
    b.update("c".to_string());
    assert_eq!(b.0, vec!["a".to_string(), "b".to_string()]);
}

#[test]
fn launching_opens_the_window_or_the_default_package() {
    assert!(opens_window(false, None, false, false, true));
    assert!(!opens_window(false, None, true, false, true));
    assert!(opens_window(false, None, true, true, true));
    assert!(opens_window(true, None, true, false, true));
    assert!(opens_window(false, Some(1), true, false, true));
    assert!(opens_window(false, None, true, false, false));
    let mut s = ablavema::settings::Settings::defaults(String::new(), String::new(), String::new(), 0);
    s.last_update_time = 0;
    s.minutes_between_updates = 1;
    assert!(!checks_updates_at_launch(&s, 59, true));
    assert!(checks_updates_at_launch(&s, 60, true));
    assert!(!checks_updates_at_launch(&s, 60, false));
    s.check_updates_at_launch = false;
    assert!(!checks_updates_at_launch(&s, 60, true));
}

#[test]
fn all_lists_are_counted_together() {
    let mut r = ablavema::releases::Releases::new();
    assert_eq!(ablavema::releases::all_listed_len(&r), Some(0));
    r.lts.packages.push(ablavema::package::Package::default());
    r.daily_latest.packages.push(ablavema::package::Package::default());
    assert_eq!(ablavema::releases::all_listed_len(&r), Some(2));
}

#[test]
fn recording_a_list_twice_changes_nothing_more() {
    let mut bt = BuildType::Unset;
    bt.update(&Build::PatchArchive("D123".to_string()));
    bt.update(&Build::PatchArchive("D123".to_string()));
    assert!(matches!(&bt, BuildType::Patch { latest: false, archive: true, name } if name == "D123"));
}

#[test]
fn split_parts_join_back_into_the_text() {
    let text = "November 18, 10:42:20 - master - abc123 - ";
    let parts = ablavema::text::split_terminator(text, " - ");
    let mut joined = parts.join(" - ");
    joined.push_str(" - ");
    assert_eq!(joined, text);
}

#[test]
fn once_it_is_time_to_update_it_stays_time() {
    let mut s = ablavema::settings::Settings::defaults(String::new(), String::new(), String::new(), 0);
    s.last_update_time = 100;
    s.minutes_between_updates = 2;
    assert!(ablavema::helpers::is_time_to_update(&s, 220));
    assert!(ablavema::helpers::is_time_to_update(&s, 10_000));
}

#[test]
fn followed_lists_come_in_order() {
    let mut s = ablavema::settings::Settings::defaults(String::new(), String::new(), String::new(), 0);
    assert_eq!(ablavema::launch::followed_lists(&s).len(), 5);
    s.update_experimental_latest = false;
    s.update_lts = false;
    assert_eq!(
        ablavema::launch::followed_lists(&s),
        vec![ablavema::releases::ListKind::DailyLatest, ablavema::releases::ListKind::PatchLatest, ablavema::releases::ListKind::StableLatest]
    );
}

#[test]
fn the_launch_check_needs_the_setting_the_time_and_a_connection() {
    let mut s = ablavema::settings::Settings::defaults(String::new(), String::new(), String::new(), 0);
    s.last_update_time = 0;
    s.minutes_between_updates = 1;
    s.update_daily_latest = false;
    let saved = vec![ListKind::Lts, ListKind::DailyLatest, ListKind::StableArchive, ListKind::PatchLatest];
    assert!(matches!(launch_update_check(&mut s, 59, true, &saved), LaunchCheck::NotYet));
    assert!(matches!(launch_update_check(&mut s, 60, false, &saved), LaunchCheck::NoConnection));
    assert_eq!(s.last_update_time, 0);
    match launch_update_check(&mut s, 60, true, &saved) {
        LaunchCheck::Check(kinds) => assert_eq!(kinds, vec![ListKind::PatchLatest, ListKind::Lts]),
        _ => panic!("expected a check"),
    }
    assert_eq!(s.last_update_time, 60);
    s.check_updates_at_launch = false;
    assert!(matches!(launch_update_check(&mut s, 120, true, &saved), LaunchCheck::Off));
}

#[test]
fn the_self_updater_tab_offers_one_action() {
    let mut st = GuiState::new("0.4.2");
    assert_eq!(self_updater_action(&st, false, true, "0.4.2"), SelfUpdaterAction::Fetch { enabled: true });
    assert_eq!(self_updater_action(&st, false, false, "0.4.2"), SelfUpdaterAction::Fetch { enabled: false });
    assert_eq!(self_updater_action(&st, true, true, "0.4.2"), SelfUpdaterAction::Install { enabled: false });
    st.pick_list_selected_releases = "0.4.1".to_string();
    assert_eq!(self_updater_action(&st, true, true, "0.4.2"), SelfUpdaterAction::Install { enabled: true });
    st.installing_release = true;
    assert_eq!(self_updater_action(&st, true, true, "0.4.2"), SelfUpdaterAction::Installing);
    st.installed_release = true;
    assert_eq!(self_updater_action(&st, true, true, "0.4.2"), SelfUpdaterAction::Restart);
    let releases = Some(vec![Release { version: "0.4.2".to_string() }, Release { version: "0.4.1".to_string() }]);
    assert_eq!(release_index(&releases, "0.4.1"), 1);
    assert_eq!(release_index(&releases, "0.3.0"), 0);
    assert_eq!(release_index(&None, "0.4.1"), 0);
}
