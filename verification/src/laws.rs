//! Properties that hold across calls and states of the launcher.
use crate::gui::filters::{every_kind, Filters};
use crate::gui::install::{expects, last_segment, segment_start, step_spec, without_trailing_slash, InstallEvent, InstallState};
use crate::gui::message::{filter_changed, resyncs, setting_changed, updated, Effect, Gui, Message};
use crate::settings::Settings;
use crate::package::{build_type_after, BuildTypeV, BuildV, PackageStatus};
use crate::releases::{
    first_follower, gathered, is_update_at, marked_new, refreshed_status, same_line, same_series,
    status_refreshed, synced, unseen, views, with_status,
};
use crate::package::PackageV;
use crate::sorting::holds;
use crate::text::{first_occurrence, lemma_first_occurrence, occurs_at, pieces};
use crate::package::{is_builder_build, same_package};
use crate::settings::{changed_minutes, first_index_from, no_duplicates, toggled, MAX_MINUTES_BETWEEN_UPDATES};
use crate::package::Package;
use vstd::prelude::*;

verus! {

/// Bookmarking a package that is not bookmarked, then taking the bookmark
/// away again, gives back the bookmarks as they were.
pub proof fn law_bookmark_toggled_twice(s: Seq<Seq<char>>, name: Seq<char>)
    requires
        !s.contains(name),
    ensures
        toggled(toggled(s, name), name) == s,
{
    let t = s.push(name);
    assert(t.contains(name)) by {
        assert(t[s.len() as int] == name);
    }
    lemma_first_index_from_last(s, name, 0);
    assert(t.remove(s.len() as int) =~= s);
}

/// In `s.push(x)` where `s` lacks `x`, the first `x` from `i` on is the last element.
proof fn lemma_first_index_from_last(s: Seq<Seq<char>>, x: Seq<char>, i: int)
    requires
        !s.contains(x),
        0 <= i <= s.len(),
    ensures
        first_index_from(s.push(x), x, i) == s.len(),
    decreases s.len() - i,
{
    if i < s.len() {
        assert(s.push(x)[i] == s[i]);
        assert(s[i] != x);
        lemma_first_index_from_last(s, x, i + 1);
    } else {
        assert(s.push(x)[i] == x);
    }
}

/// Bookmarking toggles a package: afterwards it is bookmarked exactly when
/// it was not before, and no name is bookmarked twice.
pub proof fn law_bookmark_toggles(s: Seq<Seq<char>>, name: Seq<char>)
    requires
        no_duplicates(s),
    ensures
        toggled(s, name).contains(name) <==> !s.contains(name),
        no_duplicates(toggled(s, name)),
{
    if s.contains(name) {
        let i = first_index_from(s, name, 0);
        lemma_first_index_found(s, name, 0);
        let t = s.remove(i);
        if t.contains(name) {
            let j = choose|j: int| 0 <= j < t.len() && t[j] == name;
            if j < i {
                assert(t[j] == s[j]);
            } else {
                assert(t[j] == s[j + 1]);
            }
        }
        assert forall|a: int, b: int| 0 <= a < t.len() && 0 <= b < t.len() && a != b implies t[a]
            != t[b] by {
            let a1 = if a < i { a } else { a + 1 };
            let b1 = if b < i { b } else { b + 1 };
            assert(t[a] == s[a1] && t[b] == s[b1]);
        }
    } else {
        let t = s.push(name);
        assert(t[s.len() as int] == name);
        assert forall|a: int, b: int| 0 <= a < t.len() && 0 <= b < t.len() && a != b implies t[a]
            != t[b] by {
            if a < s.len() && b < s.len() {
                assert(t[a] == s[a] && t[b] == s[b]);
            } else if a < s.len() {
                assert(t[a] == s[a]);
            } else {
                assert(t[b] == s[b]);
            }
        }
    }
}

/// Where `x` occurs in `s` from `i` on, the first such position holds it,
/// and no name twice means no earlier one does.
proof fn lemma_first_index_found(s: Seq<Seq<char>>, x: Seq<char>, i: int)
    requires
        0 <= i <= s.len(),
        exists|k: int| i <= k < s.len() && s[k] == x,
    ensures
        i <= first_index_from(s, x, i) < s.len(),
        s[first_index_from(s, x, i)] == x,
    decreases s.len() - i,
{
    if s[i] != x {
        lemma_first_index_found(s, x, i + 1);
    }
}

/// The filter "all" stays true exactly when every kind of build is shown,
/// whatever filter is changed.
pub proof fn law_filters_all_consistent(f: Filters, m: Message)
    requires
        f.all == every_kind(f),
    ensures
        filter_changed(f, m) matches Some(g) ==> g.all == every_kind(g),
{
}

/// The minutes between checks for updates never go beyond a day, however
/// they are changed.
pub proof fn law_minutes_bounded(current: u64, change: i64)
    requires
        current <= MAX_MINUTES_BETWEEN_UPDATES,
    ensures
        changed_minutes(current, change) <= MAX_MINUTES_BETWEEN_UPDATES,
{
}

/// Recording that a package was found in a list a second time changes
/// nothing more.
pub proof fn law_build_type_idempotent(bt: BuildTypeV, b: BuildV)
    ensures
        build_type_after(build_type_after(bt, b), b) == build_type_after(bt, b),
{
}

/// Once it is time to look for updates, it stays time until the next look.
pub proof fn law_time_to_update_stays(last: u64, minutes: u64, now: u64, later: u64)
    requires
        last <= now <= later,
        (now - last) / 60 >= minutes,
    ensures
        (later - last) / 60 >= minutes,
{
    assert((later - last) / 60 >= (now - last) / 60) by (nonlinear_arith)
        requires
            now - last <= later - last,
            0 <= now - last,
    ;
}

/// An installation ends when its outside work fails, from any step but the
/// last; after the last step nothing more is expected.
pub proof fn law_install_failure_ends(state: InstallState, message: String, event: InstallEvent)
    ensures
        state != InstallState::FinishedInstalling ==> expects(state, InstallEvent::Failed(message))
            && step_spec(state, InstallEvent::Failed(message)).0 == InstallState::FinishedInstalling,
        !expects(InstallState::FinishedInstalling, event),
{
}

/// While downloading, the count of downloaded bytes only grows, and the
/// total stays.
pub proof fn law_download_grows(state: InstallState, event: InstallEvent)
    requires
        expects(state, event),
        state matches InstallState::Downloading { .. },
    ensures
        step_spec(state, event).0 matches InstallState::Downloading { total, downloaded } ==> {
            &&& state->Downloading_downloaded <= downloaded
            &&& state->Downloading_total == total
        },
{
}

/// The name a download is stored under holds no `/`.
pub proof fn law_download_name_has_no_slash(url: Seq<char>)
    ensures
        !last_segment(url).contains('/'),
{
    let t = without_trailing_slash(url);
    lemma_segment_start(t, t.len() as int);
    let k = segment_start(t, t.len() as int);
    let r = last_segment(url);
    if r.contains('/') {
        let j = choose|j: int| 0 <= j < r.len() && r[j] == '/';
        assert(r[j] == t[k + j]);
    }
}

/// No `/` follows the start of the last segment.
proof fn lemma_segment_start(t: Seq<char>, n: int)
    requires
        0 <= n <= t.len(),
    ensures
        0 <= segment_start(t, n) <= n,
        forall|j: int| segment_start(t, n) <= j < n ==> t[j] != '/',
    decreases n,
{
    if n > 0 && t[n - 1] != '/' {
        lemma_segment_start(t, n - 1);
    }
}

/// A list whose updates are not followed has no package marked as an update
/// once synced.
pub proof fn law_unfollowed_has_no_updates(before: Seq<Package>, after: Seq<Package>, installed: Seq<Package>)
    requires
        synced(before, after, installed, false),
    ensures
        forall|j: int| 0 <= j < after.len() ==> #[trigger] after[j].status != PackageStatus::Update,
{
    assert forall|j: int| 0 <= j < after.len() implies #[trigger] after[j].status != PackageStatus::Update by {
        let states = before.map_values(|p: Package| crate::releases::refreshed_state(p, installed));
        let s = crate::releases::views(states);
        assert(after[j] == crate::releases::with_status(states[j], refreshed_status(s, false, j)));
    }
}

/// Looking again for new builds of the build server among the same
/// fetched packages finds none: after a look, whether or not it found new
/// packages, every fetched package is in the list.
pub proof fn law_second_look_finds_nothing(held: Seq<Package>, fetched: Seq<Package>, after: Seq<Package>)
    requires
        forall|i: int| 0 <= i < fetched.len() ==> is_builder_build(#[trigger] fetched[i].build@),
        after.to_multiset() == held.add(unseen(held, fetched).map_values(|p: Package| marked_new(p))).to_multiset(),
    ensures
        unseen(after, fetched).len() == 0,
{
    broadcast use vstd::seq_lib::group_to_multiset_ensures;
    let fresh = unseen(held, fetched).map_values(|p: Package| marked_new(p));
    let all = held.add(fresh);
    assert forall|k: int| 0 <= k < fetched.len() implies holds(after, #[trigger] fetched[k]) by {
        let q = fetched[k];
        lemma_held_or_unseen(held, fetched, k);
        if holds(held, q) {
            let i = choose|i: int| 0 <= i < held.len() && same_package(#[trigger] held[i]@, q@);
            assert(all[i] == held[i]);
            assert(all.contains(held[i]));
            assert(after.to_multiset().count(held[i]) > 0);
            assert(after.contains(held[i]));
            let j = choose|j: int| 0 <= j < after.len() && after[j] == held[i];
            assert(same_package(after[j]@, q@));
        } else {
            let u = unseen(held, fetched);
            let m = choose|m: int| 0 <= m < u.len() && u[m] == q;
            assert(fresh[m] == marked_new(q));
            assert(all[held.len() + m] == marked_new(q));
            assert(all.contains(marked_new(q)));
            assert(after.to_multiset().count(marked_new(q)) > 0);
            assert(after.contains(marked_new(q)));
            let j = choose|j: int| 0 <= j < after.len() && after[j] == marked_new(q);
            assert(is_builder_build(q.build@));
            assert(same_package(after[j]@, q@));
        }
    }
    lemma_nothing_unseen(after, fetched);
}

/// Each fetched package is held already, or among those not seen yet.
proof fn lemma_held_or_unseen(held: Seq<Package>, fetched: Seq<Package>, k: int)
    requires
        0 <= k < fetched.len(),
    ensures
        holds(held, fetched[k]) || unseen(held, fetched).contains(fetched[k]),
    decreases fetched.len(),
{
    let u = unseen(held, fetched);
    if k == fetched.len() - 1 {
        if !holds(held, fetched.last()) {
            assert(u.last() == fetched.last());
            assert(u.contains(fetched[k]));
        }
    } else {
        lemma_held_or_unseen(held, fetched.drop_last(), k);
        assert(fetched.drop_last()[k] == fetched[k]);
        let before = unseen(held, fetched.drop_last());
        if before.contains(fetched[k]) {
            let m = choose|m: int| 0 <= m < before.len() && before[m] == fetched[k];
            if !holds(held, fetched.last()) {
                assert(u[m] == before[m]);
            }
            assert(u.contains(fetched[k]));
        }
    }
}

/// Where every fetched package is held, none is unseen.
proof fn lemma_nothing_unseen(held: Seq<Package>, fetched: Seq<Package>)
    requires
        forall|k: int| 0 <= k < fetched.len() ==> holds(held, #[trigger] fetched[k]),
    ensures
        unseen(held, fetched).len() == 0,
    decreases fetched.len(),
{
    if fetched.len() > 0 {
        assert forall|k: int| 0 <= k < fetched.drop_last().len() implies holds(held, #[trigger] fetched.drop_last()[k]) by {
            assert(fetched.drop_last()[k] == fetched[k]);
        }
        lemma_nothing_unseen(held, fetched.drop_last());
        assert(holds(held, fetched[fetched.len() - 1]));
    }
}

/// The parts joined again, with the separator between each two.
pub open spec fn joined(parts: Seq<Seq<char>>, t: Seq<char>) -> Seq<char>
    decreases parts.len(),
{
    if parts.len() <= 1 {
        if parts.len() == 1 {
            parts[0]
        } else {
            Seq::empty()
        }
    } else {
        parts[0] + t + joined(parts.drop_first(), t)
    }
}

/// Splitting a text at a separator loses nothing: the parts, joined again
/// by the separator, give back the text.
pub proof fn law_pieces_join(s: Seq<char>, t: Seq<char>)
    requires
        t.len() > 0,
    ensures
        joined(pieces(s, t), t) == s,
        pieces(s, t).len() >= 1,
    decreases s.len(),
{
    let k = first_occurrence(s, t, 0);
    lemma_first_occurrence(s, t, 0);
    if k >= 0 {
        let rest = s.subrange(k + t.len(), s.len() as int);
        law_pieces_join(rest, t);
        let p = pieces(s, t);
        assert(p == seq![s.subrange(0, k)] + pieces(rest, t));
        assert(p.drop_first() =~= pieces(rest, t));
        assert(p[0] == s.subrange(0, k));
        assert(s.subrange(k, k + t.len()) == t);
        assert(s =~= s.subrange(0, k) + t + rest);
    }
}

/// `t` is `s` with other statuses.
pub open spec fn same_but_status(s: Seq<PackageV>, t: Seq<PackageV>) -> bool {
    &&& s.len() == t.len()
    &&& forall|k: int| 0 <= k < s.len() ==> #[trigger] t[k] == (PackageV { status: t[k].status, ..s[k] })
}

/// The installed packages gathered from two lists that differ only in
/// their statuses differ only in their statuses.
proof fn lemma_gathered_status(s: Seq<PackageV>, t: Seq<PackageV>, i: int, acc: Seq<PackageV>, acc2: Seq<PackageV>)
    requires
        same_but_status(s, t),
        same_but_status(acc, acc2),
        0 <= i,
    ensures
        same_but_status(gathered(s, i, acc), gathered(t, i, acc2)),
    decreases s.len() - i,
{
    if i < s.len() {
        let p = s[i];
        let q = t[i];
        assert(q == (PackageV { status: q.status, ..p }));
        assert((exists|k: int| 0 <= k < acc.len() && same_line(#[trigger] acc[k], p)) == (exists|k: int|
            0 <= k < acc2.len() && same_line(#[trigger] acc2[k], q))) by {
            if exists|k: int| 0 <= k < acc.len() && same_line(#[trigger] acc[k], p) {
                let k = choose|k: int| 0 <= k < acc.len() && same_line(#[trigger] acc[k], p);
                assert(acc2[k] == (PackageV { status: acc2[k].status, ..acc[k] }));
                assert(same_line(acc2[k], q));
            }
            if exists|k: int| 0 <= k < acc2.len() && same_line(#[trigger] acc2[k], q) {
                let k = choose|k: int| 0 <= k < acc2.len() && same_line(#[trigger] acc2[k], q);
                assert(acc2[k] == (PackageV { status: acc2[k].status, ..acc[k] }));
                assert(same_line(acc[k], p));
            }
        }
        assert((exists|k: int| 0 <= k < acc.len() && same_series(#[trigger] acc[k], p)) == (exists|k: int|
            0 <= k < acc2.len() && same_series(#[trigger] acc2[k], q))) by {
            if exists|k: int| 0 <= k < acc.len() && same_series(#[trigger] acc[k], p) {
                let k = choose|k: int| 0 <= k < acc.len() && same_series(#[trigger] acc[k], p);
                assert(acc2[k] == (PackageV { status: acc2[k].status, ..acc[k] }));
                assert(same_series(acc2[k], q));
            }
            if exists|k: int| 0 <= k < acc2.len() && same_series(#[trigger] acc2[k], q) {
                let k = choose|k: int| 0 <= k < acc2.len() && same_series(#[trigger] acc2[k], q);
                assert(acc2[k] == (PackageV { status: acc2[k].status, ..acc[k] }));
                assert(same_series(acc[k], p));
            }
        }
        assert(same_but_status(acc.push(p), acc2.push(q))) by {
            assert forall|k: int| 0 <= k < acc.push(p).len() implies #[trigger] acc2.push(q)[k] == (PackageV {
                status: acc2.push(q)[k].status,
                ..acc.push(p)[k]
            }) by {
                if k < acc.len() {
                    assert(acc.push(p)[k] == acc[k] && acc2.push(q)[k] == acc2[k]);
                }
            }
        }
        lemma_gathered_status(s, t, i + 1, acc, acc2);
        lemma_gathered_status(s, t, i + 1, acc.push(p), acc2.push(q));
    }
}

/// The first candidate update does not depend on statuses.
proof fn lemma_first_follower_status(s: Seq<PackageV>, t: Seq<PackageV>, a: PackageV, b: PackageV, i: int)
    requires
        same_but_status(s, t),
        b == (PackageV { status: b.status, ..a }),
    ensures
        first_follower(s, a, i) == first_follower(t, b, i),
    decreases s.len() - i,
{
    if 0 <= i < s.len() {
        assert(t[i] == (PackageV { status: t[i].status, ..s[i] }));
        lemma_first_follower_status(s, t, a, b, i + 1);
    }
}

/// Whether a package is an update does not depend on statuses.
proof fn lemma_update_at_status(s: Seq<PackageV>, t: Seq<PackageV>, g: Seq<PackageV>, g2: Seq<PackageV>, j: int)
    requires
        same_but_status(s, t),
        same_but_status(g, g2),
        0 <= j < s.len(),
    ensures
        is_update_at(s, g, j) == is_update_at(t, g2, j),
{
    assert(t[j] == (PackageV { status: t[j].status, ..s[j] }));
    if is_update_at(s, g, j) {
        let k = choose|k: int| 0 <= k < g.len() && first_follower(s, #[trigger] g[k], 0) == Some(j) && s[j].date > g[k].date;
        assert(g2[k] == (PackageV { status: g2[k].status, ..g[k] }));
        lemma_first_follower_status(s, t, g[k], g2[k], 0);
        assert(first_follower(t, g2[k], 0) == Some(j));
    }
    if is_update_at(t, g2, j) {
        let k = choose|k: int| 0 <= k < g2.len() && first_follower(t, #[trigger] g2[k], 0) == Some(j) && t[j].date > g2[k].date;
        assert(g2[k] == (PackageV { status: g2[k].status, ..g[k] }));
        lemma_first_follower_status(s, t, g[k], g2[k], 0);
        assert(first_follower(s, g[k], 0) == Some(j));
    }
}

/// Refreshing the update marks of a list twice gives what refreshing it
/// once gives: what decides a mark is never a mark.
pub proof fn law_refresh_status_idempotent(s: Seq<Package>, refresh: bool)
    ensures
        status_refreshed(status_refreshed(s, refresh), refresh) == status_refreshed(s, refresh),
{
    let once = status_refreshed(s, refresh);
    let sv = views(s);
    let tv = views(once);
    assert(same_but_status(sv, tv)) by {
        assert forall|k: int| 0 <= k < sv.len() implies #[trigger] tv[k] == (PackageV { status: tv[k].status, ..sv[k] }) by {
            assert(once[k] == with_status(s[k], refreshed_status(sv, refresh, k)));
        }
    }
    lemma_gathered_status(sv, tv, 0, Seq::empty(), Seq::empty());
    let twice = status_refreshed(once, refresh);
    assert forall|j: int| 0 <= j < s.len() implies #[trigger] twice[j] == once[j] by {
        lemma_update_at_status(sv, tv, gathered(sv, 0, Seq::empty()), gathered(tv, 0, Seq::empty()), j);
        assert(once[j] == with_status(s[j], refreshed_status(sv, refresh, j)));
        assert(tv[j] == once[j]@);
        assert(twice[j] == with_status(once[j], refreshed_status(tv, refresh, j)));
    }
    assert(twice =~= once);
}

/// A filter message, acted on by the launcher, changes the filters and
/// nothing else, keeps "all" true exactly when every kind of build is
/// shown, and saves the settings.
pub proof fn law_filter_message_keeps_all(a: Gui, m: Message, now: i64, b: Gui, e: Seq<Effect>)
    requires
        a.settings.filters.all == every_kind(a.settings.filters),
        filter_changed(a.settings.filters, m) is Some,
        updated(a, m, now, b, e),
    ensures
        b == (Gui { settings: Settings { filters: b.settings.filters, ..a.settings }, ..a }),
        b.settings.filters == filter_changed(a.settings.filters, m)->0,
        b.settings.filters.all == every_kind(b.settings.filters),
        e =~= seq![Effect::SaveSettings],
{
    let f = filter_changed(a.settings.filters, m)->0;
    assert(setting_changed(a.settings, m) == Some(Settings { filters: f, ..a.settings }));
    assert(!resyncs(m));
    law_filters_all_consistent(a.settings.filters, m);
}

} // verus!
