//! What the launcher does when it starts: whether it looks for updates,
//! and whether it opens its window or starts the default package at once.
use crate::helpers::is_time_to_update;
use crate::releases::ListKind;
use crate::settings::Settings;
use vstd::prelude::*;

verus! {

/// Whether to look for new packages at launch: the settings ask for it,
/// enough minutes have passed since the last look, and the servers can be
/// reached. `now` counts seconds since the Unix epoch and is not before
/// that look.
pub fn checks_updates_at_launch(settings: &Settings, now: u64, can_connect: bool) -> (r: bool)
    requires
        now >= settings.last_update_time,
    ensures
        r == (settings.check_updates_at_launch && (now - settings.last_update_time) / 60
            >= settings.minutes_between_updates && can_connect),
{
    settings.check_updates_at_launch && is_time_to_update(settings, now) && can_connect
}

/// Whether to look for releases of the launcher itself at launch.
pub fn checks_self_updates_at_launch(settings: &Settings, now: u64, can_connect: bool) -> (r: bool)
    requires
        now >= settings.last_update_time,
    ensures
        r == (settings.check_self_updates_at_launch && (now - settings.last_update_time) / 60
            >= settings.minutes_between_updates && can_connect),
{
    settings.check_self_updates_at_launch && is_time_to_update(settings, now) && can_connect
}

/// Whether the launcher opens its window rather than starting the default
/// package: it does when new packages were found for the first time, when
/// newer releases of the launcher were found, when it is not set to bypass
/// the window, when the modifier key is held, or when there is no default
/// package.
pub fn opens_window(found_new: bool, self_updates: Option<usize>, bypass_launcher: bool, modifier_held: bool, has_default: bool) -> (r: bool)
    ensures
        r == (found_new || self_updates is Some || !bypass_launcher || modifier_held || !has_default),
{
    let mut launch = found_new || self_updates.is_some();
    if bypass_launcher && !launch {
        if modifier_held {
            launch = true;
        }
    } else {
        launch = true;
    }
    launch || !has_default
}

/// The latest lists whose updates the settings follow, in the order they
/// are looked at.
pub open spec fn followed_lists_spec(s: Settings) -> Seq<ListKind> {
    let a = if s.update_daily_latest { seq![ListKind::DailyLatest] } else { Seq::empty() };
    let b = if s.update_experimental_latest { seq![ListKind::ExperimentalLatest] } else { Seq::empty() };
    let c = if s.update_patch_latest { seq![ListKind::PatchLatest] } else { Seq::empty() };
    let d = if s.update_stable_latest { seq![ListKind::StableLatest] } else { Seq::empty() };
    let e = if s.update_lts { seq![ListKind::Lts] } else { Seq::empty() };
    a + b + c + d + e
}

/// The latest lists whose updates the settings follow, in the order they
/// are looked at: daily, experimental and patch builds, the stable
/// release, the long-term support releases.
pub fn followed_lists(settings: &Settings) -> (r: Vec<ListKind>)
    ensures
        r@ == followed_lists_spec(*settings),
{
    let mut r: Vec<ListKind> = Vec::new();
    if settings.update_daily_latest {
        r.push(ListKind::DailyLatest);
    }
    let ghost a = r@;
    if settings.update_experimental_latest {
        r.push(ListKind::ExperimentalLatest);
    }
    let ghost b = r@;
    if settings.update_patch_latest {
        r.push(ListKind::PatchLatest);
    }
    let ghost c = r@;
    if settings.update_stable_latest {
        r.push(ListKind::StableLatest);
    }
    let ghost d = r@;
    if settings.update_lts {
        r.push(ListKind::Lts);
    }
    proof {
        let s = *settings;
        assert(a =~= if s.update_daily_latest { seq![ListKind::DailyLatest] } else { Seq::empty() });
        assert(b =~= a + if s.update_experimental_latest { seq![ListKind::ExperimentalLatest] } else { Seq::<ListKind>::empty() });
        assert(c =~= b + if s.update_patch_latest { seq![ListKind::PatchLatest] } else { Seq::<ListKind>::empty() });
        assert(d =~= c + if s.update_stable_latest { seq![ListKind::StableLatest] } else { Seq::<ListKind>::empty() });
        assert(r@ =~= d + if s.update_lts { seq![ListKind::Lts] } else { Seq::<ListKind>::empty() });
    }
    r
}

/// The kinds of `followed` whose saved list exists (is among `saved`), in order.
pub open spec fn saved_followed(followed: Seq<ListKind>, saved: Seq<ListKind>) -> Seq<ListKind>
    decreases followed.len(),
{
    if followed.len() == 0 {
        Seq::empty()
    } else if saved.contains(followed.last()) {
        saved_followed(followed.drop_last(), saved).push(followed.last())
    } else {
        saved_followed(followed.drop_last(), saved)
    }
}

/// What the launcher does about new packages when it starts.
pub enum LaunchCheck {
    /// The settings do not ask for a look at launch.
    Off,
    /// Not enough minutes have passed since the last look.
    NotYet,
    /// The servers cannot be reached.
    NoConnection,
    /// Look among the packages fetched for these lists: the followed latest
    /// lists whose saved list exists, in order. The time of the look is
    /// recorded in the settings.
    Check(Vec<ListKind>),
}

/// Decides whether to look for new packages at launch, and where: the
/// settings must ask for it, enough minutes must have passed since the
/// last look, and the servers must be reachable; then the look's time is
/// recorded and the followed latest lists that are saved are named.
/// `saved` holds the kinds of the lists whose file exists; `now` counts
/// seconds since the Unix epoch and is not before the last look.
pub fn launch_update_check(settings: &mut Settings, now: u64, can_connect: bool, saved: &Vec<ListKind>) -> (r: LaunchCheck)
    requires
        now >= old(settings).last_update_time,
    ensures
        match r {
            LaunchCheck::Off => !old(settings).check_updates_at_launch && *final(settings) == *old(settings),
            LaunchCheck::NotYet => old(settings).check_updates_at_launch
                && (now - old(settings).last_update_time) / 60 < old(settings).minutes_between_updates
                && *final(settings) == *old(settings),
            LaunchCheck::NoConnection => old(settings).check_updates_at_launch
                && (now - old(settings).last_update_time) / 60 >= old(settings).minutes_between_updates
                && !can_connect && *final(settings) == *old(settings),
            LaunchCheck::Check(kinds) => checks_updates_at_launch_spec(*old(settings), now, can_connect)
                && *final(settings) == (Settings { last_update_time: now, ..*old(settings) })
                && kinds@ == saved_followed(followed_lists_spec(*old(settings)), saved@),
        },
{
    if !settings.check_updates_at_launch {
        return LaunchCheck::Off;
    }
    if !is_time_to_update(settings, now) {
        return LaunchCheck::NotYet;
    }
    if !can_connect {
        return LaunchCheck::NoConnection;
    }
    let followed = followed_lists(settings);
    let mut kinds: Vec<ListKind> = Vec::new();
    let mut i: usize = 0;
    assert(followed@.take(0) =~= Seq::<ListKind>::empty());
    while i < followed.len()
        invariant
            0 <= i <= followed@.len(),
            kinds@ == saved_followed(followed@.take(i as int), saved@),
        decreases followed@.len() - i,
    {
        assert(followed@.take(i + 1).drop_last() =~= followed@.take(i as int));
        assert(followed@.take(i + 1).last() == followed@[i as int]);
        let k = followed[i];
        let mut present = false;
        let mut j: usize = 0;
        while j < saved.len()
            invariant
                0 <= j <= saved@.len(),
                present == exists|m: int| 0 <= m < j && saved@[m] == k,
            decreases saved@.len() - j,
        {
            if saved[j] == k {
                present = true;
            }
            j = j + 1;
        }
        assert(present == saved@.contains(k));
        if present {
            kinds.push(k);
        }
        i = i + 1;
    }
    assert(followed@.take(i as int) =~= followed@);
    settings.last_update_time = now;
    LaunchCheck::Check(kinds)
}

/// Whether to look for new packages at launch (see `checks_updates_at_launch`).
pub open spec fn checks_updates_at_launch_spec(s: Settings, now: u64, can_connect: bool) -> bool {
    s.check_updates_at_launch && (now - s.last_update_time) / 60 >= s.minutes_between_updates && can_connect
}

} // verus!
