//! The packages installed on this machine.
use crate::gui::extra::BuildTypeSettings;
use crate::package::{BuildV, Package, PackageV};
use crate::releases::views;
use crate::settings::Settings;
use crate::version::{version_nth, version_part};
use vstd::prelude::*;

verus! {

broadcast use vstd::seq_lib::group_to_multiset_ensures;

/// The installed packages, newest first.
pub struct Installed(pub Vec<Package>);

/// The packages are ordered newest first.
pub open spec fn newest_first(s: Seq<Package>) -> bool {
    forall|i: int, j: int| 0 <= i < j < s.len() ==> s[i].date >= s[j].date
}

/// `a` is at least `b`, where no number comes before any number.
pub open spec fn at_least(a: Option<u32>, b: Option<u32>) -> bool {
    match (a, b) {
        (Some(x), Some(y)) => x >= y,
        (Some(_), None) => true,
        (None, Some(_)) => false,
        (None, None) => true,
    }
}

/// `p` is a newer release of the same series as the default package `d`:
/// the same build, the same first two version numbers and a third one at least as high.
pub open spec fn same_series_newer_patch(p: Package, d: Package) -> bool {
    &&& p.build@ == d.build@
    &&& version_part(p.version@, 0) == version_part(d.version@, 0)
    &&& version_part(p.version@, 1) == version_part(d.version@, 1)
    &&& at_least(version_part(p.version@, 2), version_part(d.version@, 2))
}

/// The first position from `i` on of a package that can replace the default `d`.
pub open spec fn first_successor(s: Seq<Package>, d: Package, i: int) -> Option<int>
    decreases s.len() - i,
{
    if i < 0 || i >= s.len() {
        None
    } else if same_series_newer_patch(s[i], d) {
        Some(i)
    } else {
        first_successor(s, d, i + 1)
    }
}

/// The package belongs to the release lists that `which` names.
pub open spec fn selected_by(which: BuildTypeSettings, b: BuildV) -> bool {
    match which {
        BuildTypeSettings::All => true,
        BuildTypeSettings::DailyLatest => b is DailyLatest,
        BuildTypeSettings::DailyArchive => b is DailyArchive,
        BuildTypeSettings::ExperimentalLatest => b is ExperimentalLatest,
        BuildTypeSettings::ExperimentalArchive => b is ExperimentalArchive,
        BuildTypeSettings::PatchLatest => b is PatchLatest,
        BuildTypeSettings::PatchArchive => b is PatchArchive,
        BuildTypeSettings::StableLatest => b is StableLatest,
        BuildTypeSettings::StableArchive => b is StableArchive,
        BuildTypeSettings::Lts => b is Lts,
    }
}

/// The packages of `s` that `which` selects, in order.
pub open spec fn selection(s: Seq<PackageV>, which: BuildTypeSettings) -> Seq<PackageV>
    decreases s.len(),
{
    if s.len() == 0 {
        Seq::empty()
    } else if selected_by(which, s.last().build) {
        selection(s.drop_last(), which).push(s.last())
    } else {
        selection(s.drop_last(), which)
    }
}

/// `r` is `found` rearranged by the positions `p`, each taken once, and two
/// neighbours of the same date stand in the reverse of their order in
/// `found` (as sorting by date and then reversing leaves them).
pub open spec fn newest_first_arrangement(found: Seq<Package>, r: Seq<Package>, p: Seq<int>) -> bool {
    &&& p.len() == r.len()
    &&& r.len() == found.len()
    &&& forall|t: int| 0 <= t < r.len() ==> 0 <= #[trigger] p[t] < found.len() && r[t] == found[p[t]]
    &&& forall|t: int, u: int| 0 <= t < u < r.len() ==> p[t] != p[u]
    &&& forall|t: int| #![trigger p[t], p[t + 1]] 0 <= t && t + 1 < r.len() && r[t].date == r[t + 1].date
        ==> p[t] > p[t + 1]
}

impl Installed {
    /// Replaces the installed packages with those found on disk, newest
    /// first; packages of the same date in the reverse of the order found.
    pub fn fetch(&mut self, found: Vec<Package>)
        ensures
            final(self).0@.to_multiset() == found@.to_multiset(),
            newest_first(final(self).0@),
            exists|p: Seq<int>| newest_first_arrangement(found@, final(self).0@, p),
    {
        let ghost all = found@;
        let ghost mut pos: Seq<int> = Seq::empty();
        let mut rest = found;
        let mut res: Vec<Package> = Vec::new();
        let mut k: usize = 0;
        let total = rest.len();
        assert(all.skip(0) =~= all);
        while rest.len() > 0
            invariant
                k + rest@.len() == all.len(),
                all.len() == total,
                rest@ == all.skip(k as int),
                res@.to_multiset() == all.take(k as int).to_multiset(),
                newest_first(res@),
                pos.len() == res@.len(),
                res@.len() == k,
                forall|t: int| 0 <= t < res@.len() ==> 0 <= #[trigger] pos[t] < k && res@[t] == all[pos[t]],
                forall|t: int, u: int| 0 <= t < u < res@.len() ==> pos[t] != pos[u],
                forall|t: int| #![trigger pos[t], pos[t + 1]] 0 <= t && t + 1 < res@.len() && res@[t].date == res@[t + 1].date
                    ==> pos[t] > pos[t + 1],
            decreases rest.len(),
        {
            let p = rest.remove(0);
            assert(p == all[k as int]);
            assert(all.take(k + 1) =~= all.take(k as int).push(p));
            let mut at: usize = 0;
            while at < res.len()
                invariant
                    0 <= at <= res.len(),
                    forall|i: int| 0 <= i < at ==> res@[i].date > p.date,
                ensures
                    0 <= at <= res.len(),
                    forall|i: int| 0 <= i < at ==> res@[i].date > p.date,
                    at < res.len() ==> res@[at as int].date <= p.date,
                decreases res.len() - at,
            {
                if res[at].date <= p.date {
                    break;
                }
                at = at + 1;
            }
            let ghost before = res@;
            let ghost old_pos = pos;
            res.insert(at, p);
            proof {
                pos = old_pos.insert(at as int, k as int);
                assert forall|i: int, j: int| 0 <= i < j < res@.len() implies res@[i].date
                    >= res@[j].date by {
                    if j < at {
                        assert(res@[i] == before[i] && res@[j] == before[j]);
                    } else if j == at {
                        assert(res@[i] == before[i]);
                    } else if i == at {
                        assert(res@[j] == before[j - 1]);
                        if j - 1 > at {
                            assert(before[at as int].date >= before[j - 1].date);
                        }
                    } else if i < at {
                        assert(res@[i] == before[i] && res@[j] == before[j - 1]);
                    } else {
                        assert(res@[i] == before[i - 1] && res@[j] == before[j - 1]);
                    }
                }
                assert forall|t: int| 0 <= t < res@.len() implies 0 <= #[trigger] pos[t] < k + 1 && res@[t] == all[pos[t]] by {
                    if t < at {
                        assert(res@[t] == before[t] && pos[t] == old_pos[t]);
                    } else if t > at {
                        assert(res@[t] == before[t - 1] && pos[t] == old_pos[t - 1]);
                    }
                }
                assert forall|t: int, u: int| 0 <= t < u < res@.len() implies pos[t] != pos[u] by {
                    if t < at && u < at {
                        assert(pos[t] == old_pos[t] && pos[u] == old_pos[u]);
                    } else if t < at && u > at {
                        assert(pos[t] == old_pos[t] && pos[u] == old_pos[u - 1]);
                    } else if t > at {
                        assert(pos[t] == old_pos[t - 1] && pos[u] == old_pos[u - 1]);
                    } else if t == at {
                        assert(pos[u] == old_pos[u - 1]);
                    } else {
                        assert(pos[t] == old_pos[t]);
                    }
                }
                assert forall|t: int| #![trigger pos[t], pos[t + 1]] 0 <= t && t + 1 < res@.len() && res@[t].date == res@[t + 1].date
                    implies pos[t] > pos[t + 1] by {
                    if t + 1 < at {
                        assert(res@[t] == before[t] && res@[t + 1] == before[t + 1]);
                        assert(pos[t] == old_pos[t] && pos[t + 1] == old_pos[t + 1]);
                    } else if t + 1 == at {
                        assert(res@[t] == before[t]);
                    } else if t == at {
                        assert(pos[t] == k && pos[t + 1] == old_pos[t]);
                    } else {
                        let j = t - 1;
                        assert(res@[t] == before[j] && res@[t + 1] == before[j + 1]);
                        assert(pos[t] == old_pos[j] && pos[t + 1] == old_pos[j + 1]);
                    }
                }
            }
            k = k + 1;
            assert(rest@ =~= all.skip(k as int));
        }
        assert(all.take(k as int) =~= all);
        assert(newest_first_arrangement(all, res@, pos));
        self.0 = res;
    }

    /// Replaces the default package by a newer installed release of its
    /// series, when the settings ask for the latest to be the default; tells
    /// whether it did.
    pub fn update_default(&self, settings: &mut Settings) -> (r: bool)
        ensures
            match old(settings).default_package {
                Some(d) if old(settings).use_latest_as_default => match first_successor(self.0@, d, 0) {
                    Some(j) if self.0@[j].date > d.date => r && (final(settings).default_package
                        matches Some(n) && n@ == self.0@[j]@),
                    _ => !r,
                },
                _ => !r,
            },
            !r ==> final(settings).default_package == old(settings).default_package,
            *final(settings) == (Settings { default_package: final(settings).default_package, ..*old(settings) }),
    {
        if !settings.use_latest_as_default {
            return false;
        }
        let found = match &settings.default_package {
            Some(d) => {
                let mut i: usize = 0;
                let mut found: Option<usize> = None;
                while i < self.0.len()
                    invariant_except_break
                        found is None,
                    invariant
                        0 <= i <= self.0.len(),
                        first_successor(self.0@, *d, 0) == first_successor(self.0@, *d, i as int),
                    ensures
                        match found {
                            Some(j) => j < self.0@.len() && first_successor(self.0@, *d, 0) == Some(
                                j as int,
                            ) && self.0@[j as int].date > d.date,
                            None => match first_successor(self.0@, *d, 0) {
                                Some(j) => !(self.0@[j].date > d.date),
                                None => true,
                            },
                        },
                    decreases self.0.len() - i,
                {
                    let p = &self.0[i];
                    let same = p.build.same(&d.build) && version_nth(p.version.as_str(), 0)
                        == version_nth(d.version.as_str(), 0) && version_nth(p.version.as_str(), 1)
                        == version_nth(d.version.as_str(), 1) && {
                        let a = version_nth(p.version.as_str(), 2);
                        let b = version_nth(d.version.as_str(), 2);
                        match (a, b) {
                            (Some(x), Some(y)) => x >= y,
                            (Some(_), None) => true,
                            (None, Some(_)) => false,
                            (None, None) => true,
                        }
                    };
                    if same {
                        if p.date > d.date {
                            found = Some(i);
                        }
                        break;
                    }
                    i = i + 1;
                }
                found
            },
            None => None,
        };
        match found {
            Some(j) => {
                settings.default_package = Some(self.0[j].clone());
                true
            },
            None => false,
        }
    }

    /// The installed packages of the release lists that `which` names, in
    /// order: those that a removal of these lists' packages takes away.
    pub fn selected(&self, which: BuildTypeSettings) -> (r: Vec<Package>)
        ensures
            views(r@) == selection(views(self.0@), which),
    {
        let mut res: Vec<Package> = Vec::new();
        let mut i: usize = 0;
        while i < self.0.len()
            invariant
                0 <= i <= self.0.len(),
                views(res@) == selection(views(self.0@).take(i as int), which),
            decreases self.0.len() - i,
        {
            assert(views(self.0@).take(i + 1).drop_last() =~= views(self.0@).take(i as int));
            assert(views(self.0@).take(i + 1).last() == self.0@[i as int]@);
            let p = &self.0[i];
            let keep = match which {
                BuildTypeSettings::All => true,
                BuildTypeSettings::DailyLatest => matches!(p.build, crate::package::Build::DailyLatest(_)),
                BuildTypeSettings::DailyArchive => matches!(p.build, crate::package::Build::DailyArchive(_)),
                BuildTypeSettings::ExperimentalLatest => matches!(p.build, crate::package::Build::ExperimentalLatest(_)),
                BuildTypeSettings::ExperimentalArchive => matches!(p.build, crate::package::Build::ExperimentalArchive(_)),
                BuildTypeSettings::PatchLatest => matches!(p.build, crate::package::Build::PatchLatest(_)),
                BuildTypeSettings::PatchArchive => matches!(p.build, crate::package::Build::PatchArchive(_)),
                BuildTypeSettings::StableLatest => matches!(p.build, crate::package::Build::StableLatest),
                BuildTypeSettings::StableArchive => matches!(p.build, crate::package::Build::StableArchive),
                BuildTypeSettings::Lts => matches!(p.build, crate::package::Build::Lts),
            };
            if keep {
                let ghost prev = res@;
                res.push(self.0[i].clone());
                assert(views(res@) =~= views(prev).push(self.0@[i as int]@));
            }
            i = i + 1;
        }
        assert(views(self.0@).take(i as int) =~= views(self.0@));
        res
    }
}

} // verus!
