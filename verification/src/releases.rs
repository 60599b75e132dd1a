//! Lists of released packages: finding new ones, marking installed ones and
//! updates, and merging all lists into one view.
pub mod builder;
pub mod installed;
pub mod lts;
pub mod stable_latest;
pub mod stable_archive;

use crate::helpers::ReturnOption;
use crate::package::{build_type_after, BuildTypeV};
use crate::releases::installed::Installed;
use crate::settings::Settings;
use crate::package::{Build, BuildV, Package, PackageState, PackageStatus, PackageV};
use crate::version::{same_version, version_nth, version_part, versions_equal};
use crate::sorting::{contains_package, holds, one_family, sort_packages, sorted, stably_rearranged};
use vstd::prelude::*;

verus! {

broadcast use vstd::seq_lib::group_to_multiset_ensures;

/// The packages of one kind of release (daily builds, stable releases, ...).
pub struct ReleaseList {
    pub packages: Vec<Package>,
}

/// Daily builds of the main branches, latest.
pub type DailyLatest = ReleaseList;
/// Daily builds of the main branches, archived.
pub type DailyArchive = ReleaseList;
/// Builds of experimental branches, latest.
pub type ExperimentalLatest = ReleaseList;
/// Builds of experimental branches, archived.
pub type ExperimentalArchive = ReleaseList;
/// Builds of proposed patches, latest.
pub type PatchLatest = ReleaseList;
/// Builds of proposed patches, archived.
pub type PatchArchive = ReleaseList;
/// The latest stable release.
pub type StableLatest = ReleaseList;
/// All stable releases.
pub type StableArchive = ReleaseList;
/// Long-term support releases.
pub type Lts = ReleaseList;

/// The fetched packages that the list does not hold yet, in fetched order.
pub open spec fn unseen(held: Seq<Package>, fetched: Seq<Package>) -> Seq<Package>
    decreases fetched.len(),
{
    if fetched.len() == 0 {
        Seq::empty()
    } else {
        let before = unseen(held, fetched.drop_last());
        if holds(held, fetched.last()) {
            before
        } else {
            before.push(fetched.last())
        }
    }
}

/// The package marked as newly fetched.
pub open spec fn marked_new(p: Package) -> Package {
    Package { status: PackageStatus::New, ..p }
}

/// The package's state once the installed packages are known: installed
/// when an installed package is the same one, otherwise fetched if it was
/// marked installed, otherwise as it was.
pub open spec fn refreshed_state(p: Package, installed: Seq<Package>) -> Package {
    if holds(installed, p) {
        Package { state: PackageState::Installed, ..p }
    } else if p.state is Installed {
        Package { state: PackageState::Fetched, ..p }
    } else {
        p
    }
}

/// The package with an update mark taken away.
pub open spec fn unmarked(p: Package) -> Package {
    if p.status == PackageStatus::Update {
        Package { status: PackageStatus::Old, ..p }
    } else {
        p
    }
}

impl ReleaseList {
    /// An empty list.
    pub fn new() -> (r: ReleaseList)
        ensures
            r.packages@ == Seq::<Package>::empty(),
    {
        ReleaseList { packages: Vec::new() }
    }

    /// Moves the packages out, leaving the list empty.
    pub fn take(&mut self) -> (r: ReleaseList)
        ensures
            r.packages@ == old(self).packages@,
            final(self).packages@ == Seq::<Package>::empty(),
    {
        let mut packages: Vec<Package> = Vec::new();
        std::mem::swap(&mut packages, &mut self.packages);
        ReleaseList { packages }
    }

    /// The fetched packages that the list does not hold yet, if there are any.
    pub fn get_new_packages(&self, fetched: Vec<Package>) -> (r: Option<ReleaseList>)
        ensures
            match r {
                Some(list) => list.packages@ == unseen(self.packages@, fetched@)
                    && list.packages@.len() > 0,
                None => unseen(self.packages@, fetched@).len() == 0,
            },
    {
        let ghost all = fetched@;
        let total = fetched.len();
        let mut rest = fetched;
        let mut found: Vec<Package> = Vec::new();
        let mut k: usize = 0;
        assert(all.take(0) =~= Seq::<Package>::empty());
        while rest.len() > 0
            invariant
                k + rest@.len() == all.len(),
                all.len() == total,
                rest@ == all.skip(k as int),
                found@ == unseen(self.packages@, all.take(k as int)),
            decreases rest.len(),
        {
            let p = rest.remove(0);
            assert(all.take(k + 1).drop_last() =~= all.take(k as int));
            assert(all.take(k + 1).last() == p);
            if !contains_package(&self.packages, &p) {
                found.push(p);
            }
            k = k + 1;
            assert(rest@ =~= all.skip(k as int));
        }
        assert(all.take(k as int) =~= all);
        if found.len() == 0 {
            None
        } else {
            Some(ReleaseList { packages: found })
        }
    }

    /// Adds new packages, each marked as new, and sorts the list. When all
    /// packages are of one family the list is then sorted.
    pub fn add_new_packages(&mut self, new_packages: ReleaseList)
        ensures
            final(self).packages@.to_multiset() == old(self).packages@.add(
                new_packages.packages@.map_values(|p: Package| marked_new(p)),
            ).to_multiset(),
            stably_rearranged(
                views(old(self).packages@.add(new_packages.packages@.map_values(|p: Package| marked_new(p)))),
                views(final(self).packages@),
            ),
            one_family(old(self).packages@.add(
                new_packages.packages@.map_values(|p: Package| marked_new(p)),
            )) ==> sorted(final(self).packages@),
    {
        let ghost added = new_packages.packages@.map_values(|p: Package| marked_new(p));
        let ghost start = self.packages@;
        let mut packages: Vec<Package> = Vec::new();
        std::mem::swap(&mut packages, &mut self.packages);
        let ghost incoming = new_packages.packages@;
        let total = new_packages.packages.len();
        let mut rest = new_packages.packages;
        let mut k: usize = 0;
        assert(incoming.skip(0) =~= incoming);
        while rest.len() > 0
            invariant
                k + rest@.len() == added.len(),
                added.len() == total,
                added == incoming.map_values(|p: Package| marked_new(p)),
                rest@ == incoming.skip(k as int),
                packages@ == start + added.take(k as int),
            decreases rest.len(),
        {
            let mut p = rest.remove(0);
            p.status = PackageStatus::New;
            assert(p == added[k as int]);
            packages.push(p);
            assert(added.take(k + 1) =~= added.take(k as int).push(added[k as int]));
            k = k + 1;
            assert(rest@ =~= incoming.skip(k as int));
            assert(packages@ =~= start + added.take(k as int));
        }
        assert(added.take(k as int) =~= added);
        self.packages = sort_packages(packages);
    }

    /// Adds the fetched packages that the list does not hold yet, marked as
    /// new, and sorts the list (sorted where all are of one family); tells
    /// whether there were any.
    pub fn check_updates(&mut self, fetched: Vec<Package>) -> (r: bool)
        ensures
            r == (unseen(old(self).packages@, fetched@).len() > 0),
            r ==> final(self).packages@.to_multiset() == old(self).packages@.add(
                unseen(old(self).packages@, fetched@).map_values(|p: Package| marked_new(p)),
            ).to_multiset(),
            !r ==> final(self).packages@ == old(self).packages@,
            r ==> stably_rearranged(
                views(old(self).packages@.add(unseen(old(self).packages@, fetched@).map_values(|p: Package| marked_new(p)))),
                views(final(self).packages@),
            ),
            r && one_family(old(self).packages@.add(
                unseen(old(self).packages@, fetched@).map_values(|p: Package| marked_new(p)),
            )) ==> sorted(final(self).packages@),
    {
        match self.get_new_packages(fetched) {
            Some(new_packages) => {
                self.add_new_packages(new_packages);
                true
            },
            None => false,
        }
    }

    /// Marks the packages that are installed, and only those, as installed.
    pub fn refresh_state(&mut self, installed: &Vec<Package>)
        ensures
            final(self).packages@ == old(self).packages@.map_values(
                |p: Package| refreshed_state(p, installed@),
            ),
    {
        let ghost start = self.packages@;
        let ghost target = start.map_values(|p: Package| refreshed_state(p, installed@));
        let mut rest: Vec<Package> = Vec::new();
        std::mem::swap(&mut rest, &mut self.packages);
        let mut k: usize = 0;
        let total = rest.len();
        assert(start.skip(0) =~= start);
        while rest.len() > 0
            invariant
                k + rest@.len() == start.len(),
                start.len() == total,
                target == start.map_values(|p: Package| refreshed_state(p, installed@)),
                rest@ == start.skip(k as int),
                self.packages@ == target.take(k as int),
            decreases rest.len(),
        {
            let mut p = rest.remove(0);
            let ghost orig = p;
            if matches!(p.state, PackageState::Installed) {
                p.state = PackageState::Fetched;
            }
            if contains_package(installed, &p) {
                p.state = PackageState::Installed;
            }
            assert(orig == start[k as int]);
            assert(p == target[k as int]);
            self.packages.push(p);
            k = k + 1;
            assert(rest@ =~= start.skip(k as int));
            assert(self.packages@ =~= target.take(k as int));
        }
        assert(target.take(k as int) =~= target);
    }

    /// Takes the update mark away from every package.
    pub fn unset_status(&mut self)
        ensures
            final(self).packages@ == old(self).packages@.map_values(|p: Package| unmarked(p)),
    {
        let ghost start = self.packages@;
        let ghost target = start.map_values(|p: Package| unmarked(p));
        let mut rest: Vec<Package> = Vec::new();
        std::mem::swap(&mut rest, &mut self.packages);
        let mut k: usize = 0;
        let total = rest.len();
        assert(start.skip(0) =~= start);
        while rest.len() > 0
            invariant
                k + rest@.len() == start.len(),
                start.len() == total,
                target == start.map_values(|p: Package| unmarked(p)),
                rest@ == start.skip(k as int),
                self.packages@ == target.take(k as int),
            decreases rest.len(),
        {
            let mut p = rest.remove(0);
            assert(p == start[k as int]);
            if p.status == PackageStatus::Update {
                p.status = PackageStatus::Old;
            }
            assert(p == target[k as int]);
            self.packages.push(p);
            k = k + 1;
            assert(rest@ =~= start.skip(k as int));
            assert(self.packages@ =~= target.take(k as int));
        }
        assert(target.take(k as int) =~= target);
    }
}


/// The package with the status `status`.
pub open spec fn with_status(p: Package, status: PackageStatus) -> Package {
    Package { status, ..p }
}

/// `Update` when the package at position `j` is newer than an installed
/// package it is the first candidate update of, otherwise `otherwise`.
pub open spec fn bumped_status(
    s: Seq<PackageV>,
    installed: Seq<PackageV>,
    j: int,
    otherwise: PackageStatus,
) -> PackageStatus {
    if is_update_at(s, installed, j) {
        PackageStatus::Update
    } else {
        otherwise
    }
}

/// The views of a list of packages.
pub open spec fn views(s: Seq<Package>) -> Seq<PackageV> {
    s.map_values(|p: Package| p@)
}

/// The latest build of a branch of the build server.
pub open spec fn is_latest_builder(b: BuildV) -> bool {
    b is DailyLatest || b is ExperimentalLatest || b is PatchLatest
}

/// A build whose newer copies are followed: latest builds of the build
/// server, the latest stable release and long-term support releases.
pub open spec fn is_tracked(b: BuildV) -> bool {
    is_latest_builder(b) || b is StableLatest || b is Lts
}

/// `p` is of the same version and build as `a`.
pub open spec fn same_line(a: PackageV, p: PackageV) -> bool {
    versions_equal(a.version, p.version) && a.build == p.build
}

/// `p` has the same first two version numbers as `a` (a long-term support series).
pub open spec fn same_series(a: PackageV, p: PackageV) -> bool {
    version_part(a.version, 0) == version_part(p.version, 0) && version_part(a.version, 1)
        == version_part(p.version, 1)
}

/// `p` is a candidate update of the installed package `a`.
pub open spec fn follows(a: PackageV, p: PackageV) -> bool {
    if is_latest_builder(a.build) {
        same_line(a, p)
    } else if a.build is StableLatest {
        a.build == p.build
    } else if a.build is Lts {
        same_series(a, p)
    } else {
        false
    }
}

/// The installed packages whose updates are looked for, gathered from
/// position `i` on after `acc`: one per version and build of the build
/// server, the first installed latest stable release (which ends the
/// search), one per long-term support series; an installed archived
/// package ends the search.
pub open spec fn gathered(s: Seq<PackageV>, i: int, acc: Seq<PackageV>) -> Seq<PackageV>
    decreases s.len() - i,
{
    if i >= s.len() {
        acc
    } else {
        let p = s[i];
        if !(p.state is Installed) {
            gathered(s, i + 1, acc)
        } else if is_latest_builder(p.build) {
            if exists|k: int| 0 <= k < acc.len() && same_line(#[trigger] acc[k], p) {
                gathered(s, i + 1, acc)
            } else {
                gathered(s, i + 1, acc.push(p))
            }
        } else if p.build is StableLatest {
            acc.push(p)
        } else if p.build is Lts {
            if exists|k: int| 0 <= k < acc.len() && same_series(#[trigger] acc[k], p) {
                gathered(s, i + 1, acc)
            } else {
                gathered(s, i + 1, acc.push(p))
            }
        } else {
            acc
        }
    }
}

/// The first position from `i` on of a candidate update of `a`.
pub open spec fn first_follower(s: Seq<PackageV>, a: PackageV, i: int) -> Option<int>
    decreases s.len() - i,
{
    if i < 0 || i >= s.len() {
        None
    } else if follows(a, s[i]) {
        Some(i)
    } else {
        first_follower(s, a, i + 1)
    }
}

/// The package at position `j` is newer than the installed package it is
/// the first candidate update of.
pub open spec fn is_update_at(s: Seq<PackageV>, installed: Seq<PackageV>, j: int) -> bool {
    exists|k: int|
        0 <= k < installed.len() && first_follower(s, #[trigger] installed[k], 0) == Some(j)
            && s[j].date > installed[k].date
}

/// The status of the package at position `j` once updates are looked for
/// (when `refresh`) among the packages `s`.
pub open spec fn refreshed_status(s: Seq<PackageV>, refresh: bool, j: int) -> PackageStatus {
    if refresh && is_update_at(s, gathered(s, 0, Seq::empty()), j) {
        PackageStatus::Update
    } else if s[j].status == PackageStatus::Update {
        PackageStatus::Old
    } else {
        s[j].status
    }
}

/// Everything `gathered` collects is a followed build.
proof fn lemma_gathered_tracked(s: Seq<PackageV>, i: int, acc: Seq<PackageV>)
    requires
        forall|k: int| 0 <= k < acc.len() ==> is_tracked(#[trigger] acc[k].build),
    ensures
        forall|k: int|
            0 <= k < gathered(s, i, acc).len() ==> is_tracked(#[trigger] gathered(s, i, acc)[k].build),
    decreases s.len() - i,
{
    if i < s.len() {
        let p = s[i];
        assert forall|k: int| 0 <= k < acc.push(p).len() && is_tracked(p.build) implies is_tracked(
            #[trigger] acc.push(p)[k].build,
        ) by {
            if k < acc.len() {
                assert(acc.push(p)[k] == acc[k]);
            }
        }
        lemma_gathered_tracked(s, i + 1, acc);
        if is_tracked(p.build) {
            lemma_gathered_tracked(s, i + 1, acc.push(p));
        }
    }
}

/// Where two lists agree on the builds and versions of their packages, the
/// first candidate updates are at the same positions.
proof fn lemma_first_follower_agrees(s: Seq<PackageV>, t: Seq<PackageV>, a: PackageV, i: int)
    requires
        s.len() == t.len(),
        forall|j: int| 0 <= j < s.len() ==> #[trigger] s[j].build == t[j].build && s[j].version == t[j].version,
    ensures
        first_follower(s, a, i) == first_follower(t, a, i),
    decreases s.len() - i,
{
    if 0 <= i < s.len() {
        assert(s[i].build == t[i].build && s[i].version == t[i].version);
        lemma_first_follower_agrees(s, t, a, i + 1);
    }
}

impl Build {
    /// Whether the build is the latest build of a branch of the build server.
    pub fn is_latest_builder(&self) -> (r: bool)
        ensures
            r == is_latest_builder(self@),
    {
        match self {
            Build::DailyLatest(_) | Build::ExperimentalLatest(_) | Build::PatchLatest(_) => true,
            _ => false,
        }
    }
}

/// Whether `p` is of the same version and build as `a`.
fn is_same_line(a: &Package, p: &Package) -> (r: bool)
    ensures
        r == same_line(a@, p@),
{
    same_version(a.version.as_str(), p.version.as_str()) && a.build.same(&p.build)
}

/// Whether `p` has the same first two version numbers as `a`.
fn is_same_series(a: &Package, p: &Package) -> (r: bool)
    ensures
        r == same_series(a@, p@),
{
    version_nth(a.version.as_str(), 0) == version_nth(p.version.as_str(), 0) && version_nth(
        a.version.as_str(),
        1,
    ) == version_nth(p.version.as_str(), 1)
}

/// Whether `p` is a candidate update of the installed package `a`.
fn is_follower(a: &Package, p: &Package) -> (r: bool)
    ensures
        r == follows(a@, p@),
{
    if a.build.is_latest_builder() {
        is_same_line(a, p)
    } else {
        match a.build {
            Build::StableLatest => a.build.same(&p.build),
            Build::Lts => is_same_series(a, p),
            _ => false,
        }
    }
}

/// The first position from `from` on of a candidate update of `a`.
fn find_follower(list: &Vec<Package>, a: &Package) -> (r: Option<usize>)
    ensures
        match r {
            Some(j) => j < list@.len() && first_follower(views(list@), a@, 0) == Some(j as int),
            None => first_follower(views(list@), a@, 0) is None,
        },
{
    let ghost sv = views(list@);
    let mut i: usize = 0;
    while i < list.len()
        invariant
            0 <= i <= list.len(),
            sv == views(list@),
            first_follower(sv, a@, 0) == first_follower(sv, a@, i as int),
        decreases list.len() - i,
    {
        if is_follower(a, &list[i]) {
            return Some(i);
        }
        i = i + 1;
    }
    None
}

/// Whether an earlier gathered package is of the same version and build as `p`.
fn has_same_line(acc: &Vec<Package>, p: &Package) -> (r: bool)
    ensures
        r == exists|k: int| 0 <= k < acc@.len() && same_line(#[trigger] views(acc@)[k], p@),
{
    let mut i: usize = 0;
    while i < acc.len()
        invariant
            0 <= i <= acc.len(),
            forall|k: int| 0 <= k < i ==> !same_line(#[trigger] views(acc@)[k], p@),
        decreases acc.len() - i,
    {
        if is_same_line(&acc[i], p) {
            assert(views(acc@)[i as int] == acc@[i as int]@);
            return true;
        }
        i = i + 1;
    }
    false
}

/// Whether an earlier gathered package is of the same series as `p`.
fn has_same_series(acc: &Vec<Package>, p: &Package) -> (r: bool)
    ensures
        r == exists|k: int| 0 <= k < acc@.len() && same_series(#[trigger] views(acc@)[k], p@),
{
    let mut i: usize = 0;
    while i < acc.len()
        invariant
            0 <= i <= acc.len(),
            forall|k: int| 0 <= k < i ==> !same_series(#[trigger] views(acc@)[k], p@),
        decreases acc.len() - i,
    {
        if is_same_series(&acc[i], p) {
            assert(views(acc@)[i as int] == acc@[i as int]@);
            return true;
        }
        i = i + 1;
    }
    false
}


/// The installed packages of the list whose updates are looked for.
fn gather(list: &Vec<Package>) -> (reps: Vec<Package>)
    ensures
        views(reps@) == gathered(views(list@), 0, Seq::empty()),
        forall|k: int| 0 <= k < reps@.len() ==> is_tracked(#[trigger] reps@[k].build@),
{
    let ghost sv = views(list@);
    let mut reps: Vec<Package> = Vec::new();
    let mut i: usize = 0;
    assert(views(reps@) =~= Seq::<PackageV>::empty());
    while i < list.len()
        invariant_except_break
            gathered(sv, 0, Seq::empty()) == gathered(sv, i as int, views(reps@)),
        invariant
            0 <= i <= list.len(),
            sv == views(list@),
            forall|k: int| 0 <= k < reps@.len() ==> is_tracked(#[trigger] reps@[k].build@),
        ensures
            gathered(sv, 0, Seq::empty()) == views(reps@),
            forall|k: int| 0 <= k < reps@.len() ==> is_tracked(#[trigger] reps@[k].build@),
        decreases list.len() - i,
    {
        let p = &list[i];
        assert(sv[i as int] == p@);
        if matches!(p.state, PackageState::Installed) {
            if p.build.is_latest_builder() {
                if !has_same_line(&reps, p) {
                    let ghost prev = reps@;
                    let c = p.clone();
                    reps.push(c);
                    assert(views(reps@) =~= views(prev).push(p@)) by {
                        assert(reps@.last()@ == p@);
                    }
                }
            } else {
                match p.build {
                    Build::StableLatest => {
                        let ghost prev = reps@;
                        let c = p.clone();
                        reps.push(c);
                        assert(views(reps@) =~= views(prev).push(p@)) by {
                            assert(reps@.last()@ == p@);
                        }
                        break;
                    },
                    Build::Lts => {
                        if !has_same_series(&reps, p) {
                            let ghost prev = reps@;
                            let c = p.clone();
                            reps.push(c);
                            assert(views(reps@) =~= views(prev).push(p@)) by {
                                assert(reps@.last()@ == p@);
                            }
                        }
                    },
                    _ => {
                        break;
                    },
                }
            }
        }
        i = i + 1;
    }
    reps
}

/// The packages with their update marks refreshed (see `refreshed_status`).
pub open spec fn status_refreshed(s: Seq<Package>, refresh: bool) -> Seq<Package> {
    Seq::new(s.len(), |j: int| with_status(s[j], refreshed_status(views(s), refresh, j)))
}

impl ReleaseList {
    /// Marks as updates the packages that are newer than an installed
    /// package they follow (when `refresh`), after taking every update mark away.
    pub fn refresh_status(&mut self, refresh: bool)
        ensures
            final(self).packages@ == status_refreshed(old(self).packages@, refresh),
            final(self).packages@.len() == old(self).packages@.len(),
            forall|j: int|
                0 <= j < old(self).packages@.len() ==> #[trigger] final(self).packages@[j] == with_status(old(self).packages@[j], refreshed_status(views(old(self).packages@), refresh, j)),
    {
        let ghost start = self.packages@;
        let ghost sv = views(start);
        if !refresh {
            self.unset_status();
            assert forall|j: int| 0 <= j < start.len() implies #[trigger] self.packages@[j] == with_status(start[j], refreshed_status(sv, refresh, j)) by {
                assert(sv[j] == start[j]@);
            }
            return;
        }
        let reps = gather(&self.packages);
        let ghost rv = views(reps@);
        self.unset_status();
        let ghost base = self.packages@;
        proof {
            assert forall|j: int| 0 <= j < sv.len() implies #[trigger] sv[j].build == views(base)[j].build
                && sv[j].version == views(base)[j].version by {
                assert(base[j] == unmarked(start[j]));
            }
        }
        let mut k: usize = 0;
        assert(rv.take(0) =~= Seq::<PackageV>::empty());
        while k < reps.len()
            invariant
                0 <= k <= reps.len(),
                rv == views(reps@),
                rv == gathered(sv, 0, Seq::empty()),
                forall|m: int| 0 <= m < reps@.len() ==> is_tracked(#[trigger] reps@[m].build@),
                sv == views(start),
                base == start.map_values(|p: Package| unmarked(p)),
                self.packages@.len() == start.len(),
                forall|j: int| 0 <= j < sv.len() ==> #[trigger] sv[j].build == views(base)[j].build
                    && sv[j].version == views(base)[j].version,
                forall|j: int|
                    0 <= j < start.len() ==> #[trigger] self.packages@[j] == with_status(base[j], bumped_status(sv, rv.take(k as int), j, base[j].status)),
            ensures
                k == reps.len(),
                forall|j: int|
                    0 <= j < start.len() ==> #[trigger] self.packages@[j] == with_status(base[j], bumped_status(sv, rv.take(k as int), j, base[j].status)),
            decreases reps.len() - k,
        {
            let r = &reps[k];
            assert(rv[k as int] == r@);
            let tracked_build = r.build.is_latest_builder() || match r.build {
                Build::StableLatest | Build::Lts => true,
                _ => false,
            };
            if !tracked_build {
                assert(is_tracked(reps@[k as int].build@));
                break;
            }
            let ghost before = self.packages@;
            proof {
                assert forall|j: int| 0 <= j < sv.len() implies #[trigger] sv[j].build == views(before)[j].build
                    && sv[j].version == views(before)[j].version by {
                    assert(before[j].build == base[j].build);
                    assert(views(base)[j] == base[j]@);
                }
                lemma_first_follower_agrees(sv, views(before), r@, 0);
            }
            let found = find_follower(&self.packages, r);
            let ghost bumped_at: int = -1;
            match found {
                Some(j) => {
                    if self.packages[j].date > r.date {
                        let mut q = self.packages.remove(j);
                        q.status = PackageStatus::Update;
                        self.packages.insert(j, q);
                        proof {
                            bumped_at = j as int;
                            assert(self.packages@ =~= before.update(j as int, with_status(before[j as int], PackageStatus::Update)));
                        }
                    }
                },
                None => {},
            }
            proof {
                assert(bumped_at == -1 ==> self.packages@ == before);
                let t0 = rv.take(k as int);
                let t1 = rv.take(k + 1);
                assert(t1[k as int] == r@);
                assert forall|m: int| 0 <= m < t0.len() implies #[trigger] t1[m] == t0[m] by {}
                assert forall|j: int| 0 <= j < start.len() implies #[trigger] self.packages@[j] == with_status(base[j], bumped_status(sv, rv.take(k + 1), j, base[j].status)) by {
                    assert(sv[j] == start[j]@);
                    assert(before[j] == with_status(base[j], bumped_status(sv, t0, j, base[j].status)));
                    assert(before[j].date == start[j].date);
                    let extra = first_follower(sv, r@, 0) == Some(j) && sv[j].date > r.date;
                    if is_update_at(sv, t0, j) {
                        let m = choose|m: int|
                            0 <= m < t0.len() && first_follower(sv, #[trigger] t0[m], 0) == Some(j)
                                && sv[j].date > t0[m].date;
                        assert(t1[m] == t0[m]);
                        assert(is_update_at(sv, t1, j));
                    }
                    if extra {
                        assert(is_update_at(sv, t1, j));
                    }
                    if is_update_at(sv, t1, j) {
                        let m = choose|m: int|
                            0 <= m < t1.len() && first_follower(sv, #[trigger] t1[m], 0) == Some(j)
                                && sv[j].date > t1[m].date;
                        if m < k {
                            assert(t1[m] == t0[m]);
                            assert(is_update_at(sv, t0, j));
                        } else {
                            assert(extra);
                        }
                    }
                    assert(is_update_at(sv, t1, j) == (is_update_at(sv, t0, j) || extra));
                    if j == bumped_at {
                        assert(extra);
                    } else {
                        assert(self.packages@[j] == before[j]);
                        if extra {
                            assert(found == Some(j as usize));
                            assert(bumped_at == j);
                        }
                    }
                }
            }
            k = k + 1;
        }
        proof {
            assert(rv.take(k as int) =~= rv);
            assert forall|j: int| 0 <= j < start.len() implies #[trigger] self.packages@[j] == with_status(start[j], refreshed_status(sv, refresh, j)) by {
                assert(base[j] == unmarked(start[j]));
                assert(sv[j] == start[j]@);
            }
        }
    }
}


/// All release lists, and the installed packages.
pub struct Releases {
    pub daily_latest: DailyLatest,
    pub daily_archive: DailyArchive,
    pub experimental_latest: ExperimentalLatest,
    pub experimental_archive: ExperimentalArchive,
    pub patch_latest: PatchLatest,
    pub patch_archive: PatchArchive,
    pub stable_latest: StableLatest,
    pub stable_archive: StableArchive,
    pub lts: Lts,
    pub installed: Installed,
}

/// How many updates each kind of release has, `None` for none.
#[derive(Clone, Copy, Debug, PartialEq, Eq, Structural)]
pub struct UpdateCount {
    pub all: Option<usize>,
    pub daily: Option<usize>,
    pub experimental: Option<usize>,
    pub patch: Option<usize>,
    pub stable: Option<usize>,
    pub lts: Option<usize>,
}

/// How many packages are marked as updates.
pub open spec fn update_count(s: Seq<Package>) -> nat
    decreases s.len(),
{
    if s.len() == 0 {
        0
    } else {
        update_count(s.drop_last()) + if s.last().status == PackageStatus::Update {
            1nat
        } else {
            0nat
        }
    }
}

/// A count as an option: `None` for zero.
pub open spec fn count_option(n: nat) -> Option<usize> {
    if n == 0 {
        None
    } else {
        Some(n as usize)
    }
}

proof fn lemma_update_count_bounded(s: Seq<Package>)
    ensures
        update_count(s) <= s.len(),
    decreases s.len(),
{
    if s.len() > 0 {
        lemma_update_count_bounded(s.drop_last());
    }
}

/// How many packages of the list are marked as updates.
pub fn count_marked_updates(list: &Vec<Package>) -> (r: usize)
    ensures
        r == update_count(list@),
{
    let mut n: usize = 0;
    let mut i: usize = 0;
    while i < list.len()
        invariant
            0 <= i <= list.len(),
            n == update_count(list@.take(i as int)),
            n <= i,
        decreases list.len() - i,
    {
        assert(list@.take(i + 1).drop_last() =~= list@.take(i as int));
        if list[i].status == PackageStatus::Update {
            n = n + 1;
        }
        i = i + 1;
    }
    assert(list@.take(i as int) =~= list@);
    n
}

/// The first position from `i` on of a package named `name`.
pub open spec fn first_named(acc: Seq<PackageV>, name: Seq<char>, i: int) -> Option<int>
    decreases acc.len() - i,
{
    if i < 0 || i >= acc.len() {
        None
    } else if acc[i].name == name {
        Some(i)
    } else {
        first_named(acc, name, i + 1)
    }
}

/// One step of merging: a package whose name is already listed adds its
/// build to that entry's build type; otherwise it is listed at the end,
/// numbered by its position, with its build recorded in its build type.
pub open spec fn merge_step(acc: Seq<PackageV>, p: PackageV) -> Seq<PackageV> {
    match first_named(acc, p.name, 0) {
        Some(k) => acc.update(
            k,
            PackageV { build_type: build_type_after(acc[k].build_type, p.build), ..acc[k] },
        ),
        None => acc.push(
            PackageV {
                index: acc.len() as usize,
                build_type: build_type_after(p.build_type, p.build),
                ..p
            },
        ),
    }
}

/// The packages of `s` merged by name into `acc`, in the order of first appearance.
pub open spec fn merged_from(acc: Seq<PackageV>, s: Seq<PackageV>) -> Seq<PackageV>
    decreases s.len(),
{
    if s.len() == 0 {
        acc
    } else {
        merge_step(merged_from(acc, s.drop_last()), s.last())
    }
}

/// The packages of `s` merged by name, in the order of first appearance.
pub open spec fn merged(s: Seq<PackageV>) -> Seq<PackageV> {
    merged_from(Seq::empty(), s)
}

/// Merging two lists one after the other is merging their concatenation.
pub proof fn lemma_merged_from_concat(acc: Seq<PackageV>, s: Seq<PackageV>, t: Seq<PackageV>)
    ensures
        merged_from(merged_from(acc, s), t) == merged_from(acc, s + t),
    decreases t.len(),
{
    if t.len() == 0 {
        assert(s + t =~= s);
    } else {
        lemma_merged_from_concat(acc, s, t.drop_last());
        assert((s + t).drop_last() =~= s + t.drop_last());
        assert((s + t).last() == t.last());
    }
}

/// All packages of all release lists, in the order of the lists.
pub open spec fn all_listed(r: &Releases) -> Seq<Package> {
    r.daily_latest.packages@ + r.daily_archive.packages@ + r.experimental_latest.packages@
        + r.experimental_archive.packages@ + r.patch_latest.packages@ + r.patch_archive.packages@
        + r.stable_latest.packages@ + r.stable_archive.packages@ + r.lts.packages@
}

/// How many packages all release lists hold together, or `None` where the
/// count does not fit in a `usize`.
pub fn all_listed_len(r: &Releases) -> (n: Option<usize>)
    ensures
        match n {
            Some(k) => k == all_listed(r).len(),
            None => all_listed(r).len() > usize::MAX,
        },
{
    let lens = [
        r.daily_latest.packages.len(),
        r.daily_archive.packages.len(),
        r.experimental_latest.packages.len(),
        r.experimental_archive.packages.len(),
        r.patch_latest.packages.len(),
        r.patch_archive.packages.len(),
        r.stable_latest.packages.len(),
        r.stable_archive.packages.len(),
        r.lts.packages.len(),
    ];
    let mut total: usize = 0;
    let mut i: usize = 0;
    while i < 9
        invariant
            0 <= i <= 9,
            lens@.len() == 9,
            lens@[0] == r.daily_latest.packages@.len(),
            lens@[1] == r.daily_archive.packages@.len(),
            lens@[2] == r.experimental_latest.packages@.len(),
            lens@[3] == r.experimental_archive.packages@.len(),
            lens@[4] == r.patch_latest.packages@.len(),
            lens@[5] == r.patch_archive.packages@.len(),
            lens@[6] == r.stable_latest.packages@.len(),
            lens@[7] == r.stable_archive.packages@.len(),
            lens@[8] == r.lts.packages@.len(),
            total == lens_sum(lens@, i as int),
        decreases 9 - i,
    {
        match total.checked_add(lens[i]) {
            Some(t) => total = t,
            None => {
                proof {
                    lemma_lens_sum_grows(lens@, i as int + 1, 9);
                    assert(lens_sum(lens@, 9) == all_listed(r).len()) by {
                        reveal_with_fuel(lens_sum, 10);
                    }
                }
                return None;
            },
        }
        i = i + 1;
    }
    assert(lens_sum(lens@, 9) == all_listed(r).len()) by {
        reveal_with_fuel(lens_sum, 10);
    }
    Some(total)
}

/// The sum of the first `i` counts.
pub open spec fn lens_sum(lens: Seq<usize>, i: int) -> int
    decreases i,
{
    if i <= 0 {
        0
    } else {
        lens_sum(lens, i - 1) + lens[i - 1]
    }
}

/// Sums of more counts are no smaller.
proof fn lemma_lens_sum_grows(lens: Seq<usize>, i: int, j: int)
    requires
        0 <= i <= j <= lens.len(),
    ensures
        lens_sum(lens, i) <= lens_sum(lens, j),
    decreases j - i,
{
    if i < j {
        lemma_lens_sum_grows(lens, i, j - 1);
    }
}

/// Where merging finds the first package named `name`.
proof fn lemma_first_named(acc: Seq<PackageV>, name: Seq<char>, i: int)
    requires
        0 <= i,
    ensures
        match first_named(acc, name, i) {
            Some(k) => i <= k < acc.len() && acc[k].name == name && forall|m: int|
                i <= m < k ==> acc[m].name != name,
            None => forall|m: int| i <= m < acc.len() ==> acc[m].name != name,
        },
    decreases acc.len() - i,
{
    if i < acc.len() && acc[i].name != name {
        lemma_first_named(acc, name, i + 1);
    }
}

/// Entries are numbered by their position and no two have the same name.
pub open spec fn well_merged(m: Seq<PackageV>) -> bool {
    &&& forall|k: int| 0 <= k < m.len() ==> #[trigger] m[k].index == k
    &&& forall|a: int, b: int| 0 <= a < m.len() && 0 <= b < m.len() && a != b ==> m[a].name != m[b].name
}

/// Merging into a well merged list lists each name once, and numbers each
/// entry by its position.
pub proof fn lemma_merged_from_shape(a0: Seq<PackageV>, s: Seq<PackageV>)
    requires
        a0.len() + s.len() <= usize::MAX,
        well_merged(a0),
    ensures
        merged_from(a0, s).len() <= a0.len() + s.len(),
        well_merged(merged_from(a0, s)),
    decreases s.len(),
{
    if s.len() > 0 {
        let acc = merged_from(a0, s.drop_last());
        let p = s.last();
        lemma_merged_from_shape(a0, s.drop_last());
        lemma_first_named(acc, p.name, 0);
        let m = merged_from(a0, s);
        match first_named(acc, p.name, 0) {
            Some(k) => {
                assert forall|j: int| 0 <= j < m.len() implies #[trigger] m[j].index == j by {
                    if j != k {
                        assert(m[j] == acc[j]);
                    }
                }
                assert forall|a: int, b: int|
                    0 <= a < m.len() && 0 <= b < m.len() && a != b implies m[a].name != m[b].name by {
                    assert(m[a].name == acc[a].name && m[b].name == acc[b].name);
                }
            },
            None => {
                assert forall|j: int| 0 <= j < m.len() implies #[trigger] m[j].index == j by {
                    if j < acc.len() {
                        assert(m[j] == acc[j]);
                    }
                }
                assert forall|a: int, b: int|
                    0 <= a < m.len() && 0 <= b < m.len() && a != b implies m[a].name != m[b].name by {
                    if a < acc.len() && b < acc.len() {
                        assert(m[a] == acc[a] && m[b] == acc[b]);
                    } else if a == acc.len() {
                        assert(m[b] == acc[b]);
                    } else {
                        assert(m[a] == acc[a]);
                    }
                }
            },
        }
    }
}

/// Merging lists each name once, and numbers each entry by its position.
pub proof fn lemma_merged_shape(s: Seq<PackageV>)
    requires
        s.len() <= usize::MAX,
    ensures
        merged(s).len() <= s.len(),
        well_merged(merged(s)),
{
    lemma_merged_from_shape(Seq::empty(), s);
}

/// Merges the packages of `list` into `acc` by name.
fn merge_into(acc: &mut Vec<Package>, list: &Vec<Package>)
    requires
        old(acc)@.len() + list@.len() <= usize::MAX,
        well_merged(views(old(acc)@)),
    ensures
        views(final(acc)@) == merged_from(views(old(acc)@), views(list@)),
{
    let ghost a0 = views(acc@);
    let mut i: usize = 0;
    assert(views(list@).take(0) =~= Seq::<PackageV>::empty());
    while i < list.len()
        invariant
            0 <= i <= list.len(),
            a0.len() + list@.len() <= usize::MAX,
            well_merged(a0),
            views(acc@) == merged_from(a0, views(list@).take(i as int)),
        decreases list.len() - i,
    {
        let p = &list[i];
        let ghost sv = views(list@).take(i + 1);
        proof {
            assert(sv.drop_last() =~= views(list@).take(i as int));
            assert(sv.last() == p@);
            lemma_merged_from_shape(a0, views(list@).take(i as int));
            lemma_first_named(views(acc@), p.name@, 0);
        }
        let mut k: usize = 0;
        let mut found: Option<usize> = None;
        while k < acc.len()
            invariant_except_break
                found is None,
            invariant
                0 <= k <= acc.len(),
                first_named(views(acc@), p.name@, 0) == first_named(views(acc@), p.name@, k as int),
            ensures
                match found {
                    Some(j) => first_named(views(acc@), p.name@, 0) == Some(j as int) && j < acc.len(),
                    None => first_named(views(acc@), p.name@, 0) is None,
                },
            decreases acc.len() - k,
        {
            assert(views(acc@)[k as int] == acc@[k as int]@);
            if acc[k].name == p.name {
                found = Some(k);
                break;
            }
            k = k + 1;
        }
        let ghost before = views(acc@);
        match found {
            Some(j) => {
                let mut q = acc.remove(j);
                q.build_type.update(&p.build);
                acc.insert(j, q);
                proof {
                    assert(views(acc@) =~= before.update(
                        j as int,
                        PackageV { build_type: build_type_after(before[j as int].build_type, p.build@), ..before[j as int] },
                    )) by {
                        assert forall|m: int| 0 <= m < acc@.len() implies #[trigger] views(acc@)[m] == before.update(
                            j as int,
                            PackageV { build_type: build_type_after(before[j as int].build_type, p.build@), ..before[j as int] },
                        )[m] by {
                            assert(views(acc@)[m] == acc@[m]@);
                        }
                    }
                }
            },
            None => {
                let mut q = p.clone();
                q.index = acc.len();
                q.build_type.update(&p.build);
                acc.push(q);
                proof {
                    assert(views(acc@) =~= before.push(
                        PackageV {
                            index: before.len() as usize,
                            build_type: build_type_after(p@.build_type, p.build@),
                            ..p@
                        },
                    ));
                }
            },
        }
        i = i + 1;
    }
    assert(views(list@).take(i as int) =~= views(list@));
}

impl Releases {
    /// How many updates there are of all kinds of latest releases, `None` for none.
    pub open spec fn count_updates_spec(&self) -> UpdateCount {
        UpdateCount {
            all: count_option(
                update_count(self.daily_latest.packages@) + update_count(
                    self.experimental_latest.packages@,
                ) + update_count(self.patch_latest.packages@) + update_count(
                    self.stable_latest.packages@,
                ) + update_count(self.lts.packages@),
            ),
            daily: count_option(update_count(self.daily_latest.packages@)),
            experimental: count_option(update_count(self.experimental_latest.packages@)),
            patch: count_option(update_count(self.patch_latest.packages@)),
            stable: count_option(update_count(self.stable_latest.packages@)),
            lts: count_option(update_count(self.lts.packages@)),
        }
    }

    /// Empty release lists and no installed packages.
    pub fn new() -> (r: Releases)
        ensures
            all_listed(&r) == Seq::<Package>::empty(),
            r.installed.0@ == Seq::<Package>::empty(),
    {
        let r = Releases {
            daily_latest: ReleaseList::new(),
            daily_archive: ReleaseList::new(),
            experimental_latest: ReleaseList::new(),
            experimental_archive: ReleaseList::new(),
            patch_latest: ReleaseList::new(),
            patch_archive: ReleaseList::new(),
            stable_latest: ReleaseList::new(),
            stable_archive: ReleaseList::new(),
            lts: ReleaseList::new(),
            installed: Installed(Vec::new()),
        };
        assert(all_listed(&r) =~= Seq::<Package>::empty());
        r
    }

    /// How many updates each kind of latest release has.
    pub fn count_updates(&self) -> (r: UpdateCount)
        requires
            self.daily_latest.packages@.len() + self.experimental_latest.packages@.len()
                + self.patch_latest.packages@.len() + self.stable_latest.packages@.len()
                + self.lts.packages@.len() <= usize::MAX,
        ensures
            r == self.count_updates_spec(),
            r.daily == count_option(update_count(self.daily_latest.packages@)),
            r.experimental == count_option(update_count(self.experimental_latest.packages@)),
            r.patch == count_option(update_count(self.patch_latest.packages@)),
            r.stable == count_option(update_count(self.stable_latest.packages@)),
            r.lts == count_option(update_count(self.lts.packages@)),
            r.all == count_option(
                update_count(self.daily_latest.packages@) + update_count(
                    self.experimental_latest.packages@,
                ) + update_count(self.patch_latest.packages@) + update_count(
                    self.stable_latest.packages@,
                ) + update_count(self.lts.packages@),
            ),
    {
        proof {
            lemma_update_count_bounded(self.daily_latest.packages@);
            lemma_update_count_bounded(self.experimental_latest.packages@);
            lemma_update_count_bounded(self.patch_latest.packages@);
            lemma_update_count_bounded(self.stable_latest.packages@);
            lemma_update_count_bounded(self.lts.packages@);
        }
        let daily_count = count_marked_updates(&self.daily_latest.packages);
        let experimental_count = count_marked_updates(&self.experimental_latest.packages);
        let patch_count = count_marked_updates(&self.patch_latest.packages);
        let stable_count = count_marked_updates(&self.stable_latest.packages);
        let lts_count = count_marked_updates(&self.lts.packages);
        let all_count = daily_count + experimental_count + patch_count + stable_count + lts_count;
        UpdateCount {
            all: all_count.return_option(),
            daily: daily_count.return_option(),
            experimental: experimental_count.return_option(),
            patch: patch_count.return_option(),
            stable: stable_count.return_option(),
            lts: lts_count.return_option(),
        }
    }

    /// All packages of all lists merged by name, in the order of the lists:
    /// each entry is numbered by its position and its build type records
    /// every list its name was found in.
    pub fn build_vec(&self) -> (r: Vec<Package>)
        requires
            all_listed(self).len() <= usize::MAX,
        ensures
            views(r@) == merged(views(all_listed(self))),
    {
        let mut packages: Vec<Package> = Vec::new();
        let ghost e = Seq::<PackageV>::empty();
        let ghost l1 = views(self.daily_latest.packages@);
        let ghost l2 = views(self.daily_archive.packages@);
        let ghost l3 = views(self.experimental_latest.packages@);
        let ghost l4 = views(self.experimental_archive.packages@);
        let ghost l5 = views(self.patch_latest.packages@);
        let ghost l6 = views(self.patch_archive.packages@);
        let ghost l7 = views(self.stable_latest.packages@);
        let ghost l8 = views(self.stable_archive.packages@);
        let ghost l9 = views(self.lts.packages@);
        proof {
            assert(views(all_listed(self)) =~= l1 + l2 + l3 + l4 + l5 + l6 + l7 + l8 + l9);
            assert(views(packages@) =~= e);
            lemma_merged_from_shape(e, l1);
            lemma_merged_from_concat(e, l1, l2);
            lemma_merged_from_shape(e, l1 + l2);
            lemma_merged_from_concat(e, l1 + l2, l3);
            lemma_merged_from_shape(e, l1 + l2 + l3);
            lemma_merged_from_concat(e, l1 + l2 + l3, l4);
            lemma_merged_from_shape(e, l1 + l2 + l3 + l4);
            lemma_merged_from_concat(e, l1 + l2 + l3 + l4, l5);
            lemma_merged_from_shape(e, l1 + l2 + l3 + l4 + l5);
            lemma_merged_from_concat(e, l1 + l2 + l3 + l4 + l5, l6);
            lemma_merged_from_shape(e, l1 + l2 + l3 + l4 + l5 + l6);
            lemma_merged_from_concat(e, l1 + l2 + l3 + l4 + l5 + l6, l7);
            lemma_merged_from_shape(e, l1 + l2 + l3 + l4 + l5 + l6 + l7);
            lemma_merged_from_concat(e, l1 + l2 + l3 + l4 + l5 + l6 + l7, l8);
            lemma_merged_from_shape(e, l1 + l2 + l3 + l4 + l5 + l6 + l7 + l8);
            lemma_merged_from_concat(e, l1 + l2 + l3 + l4 + l5 + l6 + l7 + l8, l9);
        }
        merge_into(&mut packages, &self.daily_latest.packages);
        merge_into(&mut packages, &self.daily_archive.packages);
        merge_into(&mut packages, &self.experimental_latest.packages);
        merge_into(&mut packages, &self.experimental_archive.packages);
        merge_into(&mut packages, &self.patch_latest.packages);
        merge_into(&mut packages, &self.patch_archive.packages);
        merge_into(&mut packages, &self.stable_latest.packages);
        merge_into(&mut packages, &self.stable_archive.packages);
        merge_into(&mut packages, &self.lts.packages);
        packages
    }

    /// Moves the latest lists out, to look for new packages.
    pub fn take(&mut self) -> (r: (DailyLatest, ExperimentalLatest, PatchLatest, StableLatest, Lts))
        ensures
            r.0.packages@ == old(self).daily_latest.packages@,
            r.1.packages@ == old(self).experimental_latest.packages@,
            r.2.packages@ == old(self).patch_latest.packages@,
            r.3.packages@ == old(self).stable_latest.packages@,
            r.4.packages@ == old(self).lts.packages@,
            final(self).daily_latest.packages@ == Seq::<Package>::empty(),
            final(self).experimental_latest.packages@ == Seq::<Package>::empty(),
            final(self).patch_latest.packages@ == Seq::<Package>::empty(),
            final(self).stable_latest.packages@ == Seq::<Package>::empty(),
            final(self).lts.packages@ == Seq::<Package>::empty(),
            final(self).daily_archive == old(self).daily_archive,
            final(self).experimental_archive == old(self).experimental_archive,
            final(self).patch_archive == old(self).patch_archive,
            final(self).stable_archive == old(self).stable_archive,
            final(self).installed == old(self).installed,
    {
        (
            self.daily_latest.take(),
            self.experimental_latest.take(),
            self.patch_latest.take(),
            self.stable_latest.take(),
            self.lts.take(),
        )
    }

    /// Puts the latest lists back after new packages were looked for.
    pub fn add_new_packages(
        &mut self,
        packages: (bool, DailyLatest, ExperimentalLatest, PatchLatest, StableLatest, Lts),
    )
        ensures
            final(self).daily_latest == packages.1,
            final(self).experimental_latest == packages.2,
            final(self).patch_latest == packages.3,
            final(self).stable_latest == packages.4,
            final(self).lts == packages.5,
            final(self).daily_archive == old(self).daily_archive,
            final(self).experimental_archive == old(self).experimental_archive,
            final(self).patch_archive == old(self).patch_archive,
            final(self).stable_archive == old(self).stable_archive,
            final(self).installed == old(self).installed,
    {
        self.daily_latest = packages.1;
        self.experimental_latest = packages.2;
        self.patch_latest = packages.3;
        self.stable_latest = packages.4;
        self.lts = packages.5;
    }

    /// Marks installed packages in every list, and updates in the latest
    /// lists whose updates the settings follow. The installed packages must
    /// have been read already.
    pub fn sync(&mut self, settings: &Settings)
        ensures
            synced_releases(*old(self), *final(self), *settings),
    {
        self.daily_latest.refresh_state(&self.installed.0);
        self.daily_latest.refresh_status(settings.update_daily_latest);
        self.daily_archive.refresh_state(&self.installed.0);
        self.experimental_latest.refresh_state(&self.installed.0);
        self.experimental_latest.refresh_status(settings.update_experimental_latest);
        self.experimental_archive.refresh_state(&self.installed.0);
        self.patch_latest.refresh_state(&self.installed.0);
        self.patch_latest.refresh_status(settings.update_patch_latest);
        self.patch_archive.refresh_state(&self.installed.0);
        self.stable_latest.refresh_state(&self.installed.0);
        self.stable_latest.refresh_status(settings.update_stable_latest);
        self.stable_archive.refresh_state(&self.installed.0);
        self.lts.refresh_state(&self.installed.0);
        self.lts.refresh_status(settings.update_lts);
    }
}

/// `b` is `a` with installed packages marked in every list, and updates
/// marked in the latest lists whose updates the settings follow.
pub open spec fn synced_releases(a: Releases, b: Releases, settings: Settings) -> bool {
    let installed = a.installed.0@;
    &&& b.installed == a.installed
    &&& b.daily_archive.packages@ == a.daily_archive.packages@.map_values(
        |p: Package| refreshed_state(p, installed),
    )
    &&& b.experimental_archive.packages@ == a.experimental_archive.packages@.map_values(
        |p: Package| refreshed_state(p, installed),
    )
    &&& b.patch_archive.packages@ == a.patch_archive.packages@.map_values(
        |p: Package| refreshed_state(p, installed),
    )
    &&& b.stable_archive.packages@ == a.stable_archive.packages@.map_values(
        |p: Package| refreshed_state(p, installed),
    )
    &&& synced(a.daily_latest.packages@, b.daily_latest.packages@, installed, settings.update_daily_latest)
    &&& synced(a.experimental_latest.packages@, b.experimental_latest.packages@, installed, settings.update_experimental_latest)
    &&& synced(a.patch_latest.packages@, b.patch_latest.packages@, installed, settings.update_patch_latest)
    &&& synced(a.stable_latest.packages@, b.stable_latest.packages@, installed, settings.update_stable_latest)
    &&& synced(a.lts.packages@, b.lts.packages@, installed, settings.update_lts)
}

/// `after` is the list `before` with installed packages marked and, when
/// `refresh`, updates marked among them.
pub open spec fn synced(before: Seq<Package>, after: Seq<Package>, installed: Seq<Package>, refresh: bool) -> bool {
    let states = before.map_values(|p: Package| refreshed_state(p, installed));
    &&& after.len() == before.len()
    &&& forall|j: int|
        0 <= j < before.len() ==> #[trigger] after[j] == with_status(
            states[j],
            refreshed_status(views(states), refresh, j),
        )
}

/// One of the release lists.
#[derive(Clone, Copy, Debug, PartialEq, Eq, Structural)]
pub enum ListKind {
    DailyLatest,
    DailyArchive,
    ExperimentalLatest,
    ExperimentalArchive,
    PatchLatest,
    PatchArchive,
    StableLatest,
    StableArchive,
    Lts,
}

/// The list that packages of the build are kept in.
pub open spec fn list_kind_of(b: BuildV) -> ListKind {
    match b {
        BuildV::DailyLatest(_) => ListKind::DailyLatest,
        BuildV::DailyArchive(_) => ListKind::DailyArchive,
        BuildV::ExperimentalLatest(_) => ListKind::ExperimentalLatest,
        BuildV::ExperimentalArchive(_) => ListKind::ExperimentalArchive,
        BuildV::PatchLatest(_) => ListKind::PatchLatest,
        BuildV::PatchArchive(_) => ListKind::PatchArchive,
        BuildV::StableLatest => ListKind::StableLatest,
        BuildV::StableArchive => ListKind::StableArchive,
        BuildV::Lts => ListKind::Lts,
    }
}

/// The list that packages of the build are kept in.
pub fn list_kind(b: &Build) -> (r: ListKind)
    ensures
        r == list_kind_of(b@),
{
    match b {
        Build::DailyLatest(_) => ListKind::DailyLatest,
        Build::DailyArchive(_) => ListKind::DailyArchive,
        Build::ExperimentalLatest(_) => ListKind::ExperimentalLatest,
        Build::ExperimentalArchive(_) => ListKind::ExperimentalArchive,
        Build::PatchLatest(_) => ListKind::PatchLatest,
        Build::PatchArchive(_) => ListKind::PatchArchive,
        Build::StableLatest => ListKind::StableLatest,
        Build::StableArchive => ListKind::StableArchive,
        Build::Lts => ListKind::Lts,
    }
}

/// The packages of the list of that kind.
pub open spec fn list_of(r: Releases, kind: ListKind) -> Seq<Package> {
    match kind {
        ListKind::DailyLatest => r.daily_latest.packages@,
        ListKind::DailyArchive => r.daily_archive.packages@,
        ListKind::ExperimentalLatest => r.experimental_latest.packages@,
        ListKind::ExperimentalArchive => r.experimental_archive.packages@,
        ListKind::PatchLatest => r.patch_latest.packages@,
        ListKind::PatchArchive => r.patch_archive.packages@,
        ListKind::StableLatest => r.stable_latest.packages@,
        ListKind::StableArchive => r.stable_archive.packages@,
        ListKind::Lts => r.lts.packages@,
    }
}

/// The lists are the same but for the list of that kind, and the
/// installed packages are the same.
pub open spec fn others_unchanged(a: Releases, b: Releases, kind: ListKind) -> bool {
    &&& a.installed == b.installed
    &&& forall|k: ListKind| k != kind ==> #[trigger] list_of(a, k) == list_of(b, k)
}

/// `new` is the list `old` after looking among `fetched` for new packages
/// (see `ReleaseList::check_updates`): the unseen ones added, marked as
/// new, and the list stably sorted; unchanged where there are none.
pub open spec fn list_checked(old: Seq<Package>, fetched: Seq<Package>, new: Seq<Package>) -> bool {
    let added = old.add(unseen(old, fetched).map_values(|p: Package| marked_new(p)));
    if unseen(old, fetched).len() > 0 {
        &&& new.to_multiset() == added.to_multiset()
        &&& stably_rearranged(views(added), views(new))
        &&& one_family(added) ==> sorted(new)
    } else {
        new == old
    }
}

/// No kind of list occurs twice.
pub open spec fn distinct_kinds(f: Seq<(ListKind, Vec<Package>)>) -> bool {
    forall|i: int, j: int| 0 <= i < j < f.len() ==> f[i].0 != f[j].0
}

impl Releases {
    /// Looks for new packages in each list of `fetched` among the packages
    /// fetched for it, as `ReleaseList::check_updates` does; tells whether
    /// any list had new ones. The other lists and the installed packages
    /// stay.
    pub fn apply_checks(&mut self, fetched: Vec<(ListKind, Vec<Package>)>) -> (r: bool)
        requires
            distinct_kinds(fetched@),
        ensures
            r == exists|i: int| 0 <= i < fetched@.len()
                && #[trigger] unseen(list_of(*old(self), fetched@[i].0), fetched@[i].1@).len() > 0,
            forall|i: int| 0 <= i < fetched@.len() ==> list_checked(
                list_of(*old(self), fetched@[i].0),
                fetched@[i].1@,
                #[trigger] list_of(*final(self), fetched@[i].0),
            ),
            forall|k: ListKind| (forall|i: int| 0 <= i < fetched@.len() ==> fetched@[i].0 != k)
                ==> #[trigger] list_of(*final(self), k) == list_of(*old(self), k),
            final(self).installed == old(self).installed,
    {
        let ghost start = *self;
        let ghost f = fetched@;
        let mut rest = fetched;
        let mut any = false;
        let mut i: usize = 0;
        let n = rest.len();
        assert(f.skip(0) =~= f);
        while rest.len() > 0
            invariant
                i + rest@.len() == n,
                n == f.len(),
                rest@ == f.skip(i as int),
                distinct_kinds(f),
                self.installed == start.installed,
                any == exists|j: int| 0 <= j < i && #[trigger] unseen(list_of(start, f[j].0), f[j].1@).len() > 0,
                forall|j: int| 0 <= j < i ==> list_checked(list_of(start, f[j].0), f[j].1@, #[trigger] list_of(*self, f[j].0)),
                forall|k: ListKind| (forall|j: int| 0 <= j < i ==> f[j].0 != k) ==> #[trigger] list_of(*self, k) == list_of(start, k),
            decreases rest.len(),
        {
            let (kind, packages) = rest.remove(0);
            assert(f[i as int] == (kind, packages));
            assert forall|j: int| 0 <= j < i implies f[j].0 != kind by {}
            let ghost before = *self;
            let ghost held = list_of(start, kind);
            let mut list = self.take_list(kind);
            let found = list.check_updates(packages);
            self.replace_list(kind, list);
            assert(list_checked(held, f[i as int].1@, list_of(*self, kind)));
            assert forall|j: int| 0 <= j < i + 1 implies list_checked(list_of(start, f[j].0), f[j].1@, #[trigger] list_of(*self, f[j].0)) by {
                if j < i {
                    assert(f[j].0 != kind);
                    assert(list_of(*self, f[j].0) == list_of(before, f[j].0));
                }
            }
            assert forall|k: ListKind| (forall|j: int| 0 <= j < i + 1 ==> f[j].0 != k) implies #[trigger] list_of(*self, k) == list_of(start, k) by {
                assert(f[i as int].0 != k);
                assert(list_of(*self, k) == list_of(before, k));
            }
            if found {
                any = true;
            }
            assert(any == exists|j: int| 0 <= j < i + 1 && #[trigger] unseen(list_of(start, f[j].0), f[j].1@).len() > 0) by {
                if found {
                    assert(unseen(list_of(start, f[i as int].0), f[i as int].1@).len() > 0);
                }
            }
            i = i + 1;
            assert(rest@ =~= f.skip(i as int));
        }
        any
    }

    /// Replaces the list of that kind, and gives back the one it held.
    pub fn replace_list(&mut self, kind: ListKind, list: ReleaseList) -> (r: ReleaseList)
        ensures
            r.packages@ == list_of(*old(self), kind),
            list_of(*final(self), kind) == list.packages@,
            others_unchanged(*old(self), *final(self), kind),
    {
        let mut list = list;
        match kind {
            ListKind::DailyLatest => std::mem::swap(&mut self.daily_latest, &mut list),
            ListKind::DailyArchive => std::mem::swap(&mut self.daily_archive, &mut list),
            ListKind::ExperimentalLatest => std::mem::swap(&mut self.experimental_latest, &mut list),
            ListKind::ExperimentalArchive => std::mem::swap(&mut self.experimental_archive, &mut list),
            ListKind::PatchLatest => std::mem::swap(&mut self.patch_latest, &mut list),
            ListKind::PatchArchive => std::mem::swap(&mut self.patch_archive, &mut list),
            ListKind::StableLatest => std::mem::swap(&mut self.stable_latest, &mut list),
            ListKind::StableArchive => std::mem::swap(&mut self.stable_archive, &mut list),
            ListKind::Lts => std::mem::swap(&mut self.lts, &mut list),
        }
        list
    }

    /// Moves the list of that kind out, leaving it empty.
    pub fn take_list(&mut self, kind: ListKind) -> (r: ReleaseList)
        ensures
            r.packages@ == list_of(*old(self), kind),
            list_of(*final(self), kind) == Seq::<Package>::empty(),
            others_unchanged(*old(self), *final(self), kind),
    {
        self.replace_list(kind, ReleaseList::new())
    }

    /// Takes the first package that is the same as `package` out of the list
    /// of its build. The list holds such a package.
    pub fn remove_package(&mut self, package: &Package) -> (kind: ListKind)
        requires
            holds(list_of(*old(self), list_kind_of(package.build@)), *package),
        ensures
            kind == list_kind_of(package.build@),
            exists|i: int|
                0 <= i < list_of(*old(self), kind).len() && crate::package::same_package(
                    #[trigger] list_of(*old(self), kind)[i]@,
                    package@,
                ) && (forall|k: int| 0 <= k < i ==> !crate::package::same_package(
                    #[trigger] list_of(*old(self), kind)[k]@,
                    package@,
                )) && list_of(*final(self), kind) == list_of(*old(self), kind).remove(i),
            others_unchanged(*old(self), *final(self), kind),
    {
        let kind = list_kind(&package.build);
        let mut list = self.take_list(kind);
        let ghost before = list.packages@;
        match crate::sorting::position_of(&list.packages, package) {
            Some(i) => {
                list.packages.remove(i);
                let _ = self.replace_list(kind, list);
                assert(list_of(*final(self), kind) == before.remove(i as int));
            },
            None => {
                let _ = self.replace_list(kind, list);
            },
        }
        kind
    }
}

/// The positions and addresses of the packages that are not installed, in
/// order: those whose availability may be checked.
pub open spec fn checkable_spec(s: Seq<Package>) -> Seq<(int, Seq<char>)>
    decreases s.len(),
{
    if s.len() == 0 {
        Seq::empty()
    } else {
        let before = checkable_spec(s.drop_last());
        if s.last().state is Installed {
            before
        } else {
            before.push(((s.len() - 1) as int, s.last().url@))
        }
    }
}

/// The list without the packages at the given positions, taken away from
/// the last.
pub open spec fn without_positions(s: Seq<Package>, dead: Seq<usize>) -> Seq<Package>
    decreases dead.len(),
{
    if dead.len() == 0 {
        s
    } else {
        without_positions(s, dead.drop_last()).remove(dead.last() as int - (dead.len() - 1))
    }
}

/// The positions are increasing and within the list.
pub open spec fn increasing_within(dead: Seq<usize>, len: nat) -> bool {
    &&& forall|i: int, j: int| 0 <= i < j < dead.len() ==> dead[i] < dead[j]
    &&& forall|i: int| 0 <= i < dead.len() ==> dead[i] < len
}

impl ReleaseList {
    /// The positions and addresses of the packages that are not installed,
    /// in order.
    pub fn checkable(&self) -> (r: Vec<(usize, String)>)
        ensures
            r@.map_values(|x: (usize, String)| (x.0 as int, x.1@)) == checkable_spec(self.packages@),
    {
        let mut r: Vec<(usize, String)> = Vec::new();
        let mut i: usize = 0;
        assert(self.packages@.take(0) =~= Seq::<Package>::empty());
        assert(r@.map_values(|x: (usize, String)| (x.0 as int, x.1@)) =~= Seq::<(int, Seq<char>)>::empty());
        while i < self.packages.len()
            invariant
                0 <= i <= self.packages.len(),
                r@.map_values(|x: (usize, String)| (x.0 as int, x.1@)) == checkable_spec(self.packages@.take(i as int)),
            decreases self.packages.len() - i,
        {
            assert(self.packages@.take(i + 1).drop_last() =~= self.packages@.take(i as int));
            let installed = match self.packages[i].state {
                PackageState::Installed => true,
                _ => false,
            };
            if !installed {
                let ghost before = r@.map_values(|x: (usize, String)| (x.0 as int, x.1@));
                r.push((i, self.packages[i].url.clone()));
                assert(r@.map_values(|x: (usize, String)| (x.0 as int, x.1@)) =~= before.push((i as int, self.packages@[i as int].url@)));
            }
            i = i + 1;
        }
        assert(self.packages@.take(i as int) =~= self.packages@);
        r
    }

    /// Takes away the packages found no longer available, given by their
    /// increasing positions: each position, taken in order, is shifted by
    /// those already taken away.
    pub fn remove_dead(&mut self, dead: &Vec<usize>)
        requires
            increasing_within(dead@, old(self).packages@.len()),
        ensures
            final(self).packages@ == without_positions(old(self).packages@, dead@),
    {
        let ghost start = self.packages@;
        let mut removed: usize = 0;
        while removed < dead.len()
            invariant
                0 <= removed <= dead.len(),
                increasing_within(dead@, start.len()),
                self.packages@ == without_positions(start, dead@.take(removed as int)),
                self.packages@.len() == start.len() - removed,
                removed > 0 ==> dead@[removed - 1] >= removed - 1,
            decreases dead.len() - removed,
        {
            assert(dead@.take(removed + 1).drop_last() =~= dead@.take(removed as int));
            assert(dead@.take(removed + 1).last() == dead@[removed as int]);
            proof {
                if removed > 0 {
                    assert(dead@[removed - 1] < dead@[removed as int]);
                }
            }
            let index = dead[removed] - removed;
            self.packages.remove(index);
            removed = removed + 1;
        }
        assert(dead@.take(dead.len() as int) =~= dead@);
    }
}

} // verus!
