//! What the release lists promise about where a package was found, what the
//! filters show, which packages are updates, and which archives are packages.
use crate::gui::filters::{kind_shown, Filters};
use crate::package::{build_type_after, BuildTypeV, BuildV, PackageStatus, PackageV};
use crate::releases::{first_follower, follows, gathered, is_update_at, list_kind_of, refreshed_status, ListKind};
use crate::version::version_part;
use crate::releases::stable_archive::{archive_package, collected, os_mark, release_url_spec, version_packages_of, wanted_archive, ArchiveError};
use crate::text::{has_infix, has_suffix, nth_word_from};
use crate::releases::lts::{changelog_of, changes_of, lts_date_format, lts_from, lts_id, lts_links, lts_os_mark, lts_release, section_id, section_of, text_by_id};
use crate::dates::date_time_parsed;
use vstd::prelude::*;

verus! {

/// The build type records that its package was found in the list `k`.
pub open spec fn records_list(bt: BuildTypeV, k: ListKind) -> bool {
    match k {
        ListKind::DailyLatest => bt matches BuildTypeV::Daily { latest: true, .. },
        ListKind::DailyArchive => bt matches BuildTypeV::Daily { archive: true, .. },
        ListKind::ExperimentalLatest => bt matches BuildTypeV::Experimental { latest: true, .. },
        ListKind::ExperimentalArchive => bt matches BuildTypeV::Experimental { archive: true, .. },
        ListKind::PatchLatest => bt matches BuildTypeV::Patch { latest: true, .. },
        ListKind::PatchArchive => bt matches BuildTypeV::Patch { archive: true, .. },
        ListKind::StableLatest => bt matches BuildTypeV::Stable { latest: true, .. },
        ListKind::StableArchive => bt matches BuildTypeV::Stable { archive: true, .. },
        ListKind::Lts => bt matches BuildTypeV::Stable { lts: true, .. },
    }
}

/// The group of lists a list belongs to: daily, experimental and patch
/// builds, and releases (stable and long-term support).
pub open spec fn list_group(k: ListKind) -> int {
    match k {
        ListKind::DailyLatest | ListKind::DailyArchive => 0,
        ListKind::ExperimentalLatest | ListKind::ExperimentalArchive => 1,
        ListKind::PatchLatest | ListKind::PatchArchive => 2,
        _ => 3,
    }
}

/// The group of lists a build type speaks of; none while it is unset.
pub open spec fn type_group(bt: BuildTypeV) -> int {
    match bt {
        BuildTypeV::Daily { .. } => 0,
        BuildTypeV::Experimental { .. } => 1,
        BuildTypeV::Patch { .. } => 2,
        BuildTypeV::Stable { .. } => 3,
        BuildTypeV::Unset => -1,
    }
}

/// Whether the filters show packages found in the list `k`.
pub open spec fn list_filter(f: Filters, k: ListKind) -> bool {
    match k {
        ListKind::DailyLatest => f.daily_latest,
        ListKind::DailyArchive => f.daily_archive,
        ListKind::ExperimentalLatest => f.experimental_latest,
        ListKind::ExperimentalArchive => f.experimental_archive,
        ListKind::PatchLatest => f.patch_latest,
        ListKind::PatchArchive => f.patch_archive,
        ListKind::StableLatest => f.stable_latest,
        ListKind::StableArchive => f.stable_archive,
        ListKind::Lts => f.lts,
    }
}

/// Recording that a package was found as `b` (in its list), where its
/// build type is unset or of the same group, marks that list, keeps every
/// list already marked, and marks no other: a package found in both the
/// latest and the archive list of a group records both.
pub proof fn law_build_type_records_every_list(bt: BuildTypeV, b: BuildV)
    requires
        bt is Unset || type_group(bt) == list_group(list_kind_of(b)),
    ensures
        records_list(build_type_after(bt, b), list_kind_of(b)),
        forall|k: ListKind| records_list(bt, k) ==> #[trigger] records_list(build_type_after(bt, b), k),
        forall|k: ListKind| #[trigger] records_list(build_type_after(bt, b), k) ==> records_list(bt, k) || k == list_kind_of(b),
        type_group(build_type_after(bt, b)) == list_group(list_kind_of(b)),
{
}

/// The filters show a kind of package exactly when it was found in some
/// list whose filter is on: a daily build found only in the daily archive
/// is shown when the daily archive filter is on.
pub proof fn law_kind_shown_by_its_lists(f: Filters, bt: BuildTypeV)
    ensures
        forall|k: ListKind| records_list(bt, k) && list_filter(f, k) ==> kind_shown(f, bt),
        kind_shown(f, bt) ==> exists|k: ListKind| records_list(bt, k) && list_filter(f, k),
{
    if kind_shown(f, bt) {
        match bt {
            BuildTypeV::Daily { latest, archive, .. } => {
                if f.daily_latest && latest {
                    assert(records_list(bt, ListKind::DailyLatest) && list_filter(f, ListKind::DailyLatest));
                } else {
                    assert(records_list(bt, ListKind::DailyArchive) && list_filter(f, ListKind::DailyArchive));
                }
            },
            BuildTypeV::Experimental { latest, archive, .. } => {
                if f.experimental_latest && latest {
                    assert(records_list(bt, ListKind::ExperimentalLatest) && list_filter(f, ListKind::ExperimentalLatest));
                } else {
                    assert(records_list(bt, ListKind::ExperimentalArchive) && list_filter(f, ListKind::ExperimentalArchive));
                }
            },
            BuildTypeV::Patch { latest, archive, .. } => {
                if f.patch_latest && latest {
                    assert(records_list(bt, ListKind::PatchLatest) && list_filter(f, ListKind::PatchLatest));
                } else {
                    assert(records_list(bt, ListKind::PatchArchive) && list_filter(f, ListKind::PatchArchive));
                }
            },
            BuildTypeV::Stable { latest, archive, lts } => {
                if f.stable_latest && latest {
                    assert(records_list(bt, ListKind::StableLatest) && list_filter(f, ListKind::StableLatest));
                } else if f.stable_archive && archive {
                    assert(records_list(bt, ListKind::StableArchive) && list_filter(f, ListKind::StableArchive));
                } else {
                    assert(records_list(bt, ListKind::Lts) && list_filter(f, ListKind::Lts));
                }
            },
            BuildTypeV::Unset => {},
        }
    }
}

/// The first candidate update found is a candidate update.
proof fn lemma_first_follower_follows(s: Seq<PackageV>, a: PackageV, i: int, j: int)
    requires
        first_follower(s, a, i) == Some(j),
    ensures
        i <= j < s.len(),
        follows(a, s[j]),
    decreases s.len() - i,
{
    if 0 <= i < s.len() && !follows(a, s[i]) {
        lemma_first_follower_follows(s, a, i + 1, j);
    }
}

/// Every package of `q` is an installed package of `s`.
pub open spec fn installed_from(s: Seq<PackageV>, q: Seq<PackageV>) -> bool {
    forall|m: int| 0 <= m < q.len() ==> exists|k: int| 0 <= k < s.len() && s[k] == #[trigger] q[m]
        && s[k].state is Installed
}

/// Every package that `gathered` collects is an installed package of the list.
proof fn lemma_gathered_installed(s: Seq<PackageV>, i: int, acc: Seq<PackageV>)
    requires
        0 <= i,
        installed_from(s, acc),
    ensures
        installed_from(s, gathered(s, i, acc)),
    decreases s.len() - i,
{
    if i < s.len() {
        let p = s[i];
        lemma_gathered_installed(s, i + 1, acc);
        if p.state is Installed {
            assert(installed_from(s, acc.push(p))) by {
                assert forall|m: int| 0 <= m < acc.push(p).len() implies exists|k: int| 0 <= k < s.len()
                    && s[k] == #[trigger] acc.push(p)[m] && s[k].state is Installed by {
                    if m < acc.len() {
                        assert(acc.push(p)[m] == acc[m]);
                    } else {
                        assert(s[i] == acc.push(p)[m]);
                    }
                }
            }
            lemma_gathered_installed(s, i + 1, acc.push(p));
        }
    }
}

/// A long-term support release is marked as an update only of an installed
/// long-term support release of the same series: the same first two
/// version numbers, and an older date. A release of another series (2.93
/// against an installed 2.83) is never an update of it.
pub proof fn law_lts_update_is_of_the_installed_series(s: Seq<PackageV>, refresh: bool, j: int)
    requires
        0 <= j < s.len(),
        s[j].build is Lts,
        refreshed_status(s, refresh, j) == PackageStatus::Update,
    ensures
        exists|k: int| 0 <= k < s.len() && s[k].state is Installed && s[k].build is Lts
            && version_part(s[k].version, 0) == version_part(s[j].version, 0)
            && version_part(s[k].version, 1) == version_part(s[j].version, 1)
            && s[j].date > s[k].date,
{
    let g = gathered(s, 0, Seq::empty());
    assert(refresh && is_update_at(s, g, j));
    let m = choose|m: int| 0 <= m < g.len() && first_follower(s, #[trigger] g[m], 0) == Some(j) && s[j].date > g[m].date;
    lemma_first_follower_follows(s, g[m], 0, j);
    lemma_gathered_installed(s, 0, Seq::empty());
    let k = choose|k: int| 0 <= k < s.len() && s[k] == #[trigger] g[m] && s[k].state is Installed;
    assert(s[k] == g[m]);
}

/// Each package's address is `base` followed by the name of an archive for
/// the operating system that is no installer (no `.exe`, no `.msi`).
pub open spec fn archives_not_installers(ps: Seq<PackageV>, base: Seq<char>, os: crate::package::Os) -> bool {
    forall|k: int| 0 <= k < ps.len() ==> exists|b: Seq<char>| (#[trigger] ps[k]).url == base + b
        && has_infix(b, os_mark(os)) && !has_infix(b, ".exe"@) && !has_infix(b, ".msi"@)
}

/// An installer (a name holding `.exe` or `.msi`) is never an archive of a
/// package: it is not wanted, and it gives no package whatever its date.
pub proof fn law_installers_are_not_packages(b: Seq<char>, mark: Seq<char>, v: Seq<char>, d: Seq<char>, base: Seq<char>, os: crate::package::Os)
    requires
        has_infix(b, ".exe"@) || has_infix(b, ".msi"@),
    ensures
        !wanted_archive(b, mark),
        archive_package(v, b, d, base, os) == Ok::<Option<PackageV>, ArchiveError>(None),
{
}

/// Files that are not packages of the launcher (installers, checksums,
/// notes, packages of other systems' managers, sources) give no package,
/// whatever their date.
pub proof fn law_non_archives_are_not_packages(b: Seq<char>, mark: Seq<char>, v: Seq<char>, d: Seq<char>, base: Seq<char>, os: crate::package::Os)
    requires
        has_infix(b, ".msi"@) || has_infix(b, ".msix"@) || has_infix(b, ".exe"@) || has_infix(b, ".sha256"@)
            || has_infix(b, "md5sums"@) || has_infix(b, ".md"@) || has_infix(b, ".txt"@) || has_infix(b, ".rpm"@)
            || has_infix(b, ".deb"@) || has_infix(b, "source"@),
    ensures
        !wanted_archive(b, mark),
        archive_package(v, b, d, base, os) == Ok::<Option<PackageV>, ArchiveError>(None),
{
}

proof fn lemma_collected_not_installers(builds: Seq<Seq<char>>, dates: Seq<Seq<char>>, v: Seq<char>, base: Seq<char>, os: crate::package::Os, j: nat)
    ensures
        collected(builds, dates, v, base, os, j) matches Ok(ps) ==> archives_not_installers(ps, base, os),
    decreases j,
{
    if j > 0 {
        lemma_collected_not_installers(builds, dates, v, base, os, (j - 1) as nat);
        match collected(builds, dates, v, base, os, (j - 1) as nat) {
            Ok(ps) => {
                if dates.len() >= j {
                    let b = builds[builds.len() - j];
                    let d = dates[dates.len() - j];
                    match archive_package(v, b, d, base, os) {
                        Ok(Some(x)) => {
                            assert(x.url == base + b && wanted_archive(b, os_mark(os)));
                            assert forall|k: int| 0 <= k < ps.push(x).len() implies exists|c: Seq<char>| (#[trigger] ps.push(x)[k]).url == base + c
                                && has_infix(c, os_mark(os)) && !has_infix(c, ".exe"@) && !has_infix(c, ".msi"@) by {
                                if k < ps.len() {
                                    assert(ps.push(x)[k] == ps[k]);
                                } else {
                                    assert(ps.push(x)[k] == x);
                                }
                            }
                        },
                        _ => {},
                    }
                }
            },
            Err(_) => {},
        }
    }
}

/// Every package of a version's listing on the mirror is named by an
/// archive for the operating system that is no installer: its address is
/// the version directory's address followed by that archive's name.
pub proof fn law_version_listing_has_no_installers(dir: Seq<char>, html: Seq<char>, os: crate::package::Os)
    ensures
        version_packages_of(dir, html, os) matches Ok(ps) ==> archives_not_installers(ps, release_url_spec() + dir, os),
{
    if crate::text::has_prefix(dir, "Blender"@) {
        match crate::releases::stable_archive::pre_texts_of(html) {
            Some(children) => match crate::releases::stable_archive::kept_links(crate::releases::stable_archive::links_of(html), false) {
                Some(builds) => lemma_collected_not_installers(
                    builds,
                    crate::releases::stable_archive::archive_dates_of(children),
                    crate::text::without_char(dir.subrange(7, dir.len() as int), '/'),
                    release_url_spec() + dir,
                    os,
                    builds.len(),
                ),
                None => {},
            },
            None => {},
        }
    }
}

/// No package's address ends in `.msi`.
pub open spec fn no_msi_url(ps: Seq<PackageV>) -> bool {
    forall|k: int| 0 <= k < ps.len() ==> !has_suffix((#[trigger] ps[k]).url, ".msi"@)
}

/// An address that ends with the name of an archive for the operating
/// system ends in `.msi` only if the name does.
proof fn lemma_msi_suffix(pre: Seq<char>, a: Seq<char>, os: crate::package::Os)
    requires
        has_infix(a, lts_os_mark(os)),
        !has_suffix(a, ".msi"@),
    ensures
        !has_suffix(pre + a, ".msi"@),
{
    reveal_strlit(".msi");
    reveal_strlit("linux");
    reveal_strlit("windows");
    reveal_strlit("mac");
    let mark = lts_os_mark(os);
    let i = choose|i: int| crate::text::occurs_at(a, mark, i);
    assert(a.subrange(i, i + mark.len()) == mark);
    let u = pre + a;
    let n: int = u.len() as int;
    if has_suffix(u, ".msi"@) {
        assert(u.subrange(n - 4, n) == ".msi"@);
        if a.len() >= 4 {
            assert(a.subrange(a.len() - 4, a.len() as int) =~= u.subrange(n - 4, n));
            assert(crate::text::occurs_at(a, ".msi"@, a.len() - 4));
        } else {
            assert(a.len() == 3 && i == 0);
            assert(a =~= a.subrange(0, 3));
            assert(u[n - 1] == ".msi"@[3]);
            assert(u[n - 1] == a[2]);
            assert(mark[2] == a[2]);
        }
    }
}

/// No package that the links of a release give has an address ending in
/// `.msi`: the Windows installers are skipped.
pub proof fn law_lts_links_skip_installers(links: Seq<Option<Seq<char>>>, version: Seq<char>, changelog: Seq<(Seq<char>, Seq<char>)>, date: i64, path: Seq<char>, os: crate::package::Os, archive: Seq<PackageV>)
    ensures
        lts_links(links, version, changelog, date, path, os, archive) matches Ok(ps) ==> no_msi_url(ps),
    decreases links.len(),
{
    if links.len() > 0 {
        law_lts_links_skip_installers(links.drop_last(), version, changelog, date, path, os, archive);
        match (lts_links(links.drop_last(), version, changelog, date, path, os, archive), links.last()) {
            (Ok(ps), Some(h)) => {
                let pieces = crate::text::terminated_pieces(crate::text::trimmed_end(h, "?x69806"@), "/"@);
                if pieces.len() > 0 {
                    let a = pieces.last();
                    if !has_suffix(a, ".msi"@) && has_infix(a, lts_os_mark(os)) {
                        lemma_msi_suffix(release_url_spec() + path, a, os);
                        match lts_links(links, version, changelog, date, path, os, archive) {
                            Ok(qs) => {
                                assert forall|k: int| 0 <= k < qs.len() implies !has_suffix((#[trigger] qs[k]).url, ".msi"@) by {
                                    if k < ps.len() {
                                        assert(qs[k] == ps[k]);
                                    }
                                }
                            },
                            Err(_) => {},
                        }
                    }
                }
            },
            _ => {},
        }
    }
}

proof fn lemma_lts_release_no_msi(html: Seq<char>, ver: Seq<char>, path: Seq<char>, os: crate::package::Os, archive: Seq<PackageV>, rev: nat, title: Seq<char>)
    ensures
        lts_release(html, ver, path, os, archive, rev, title) matches Ok(ps) ==> no_msi_url(ps),
{
    match nth_word_from(title, 0, 2) {
        Some(v) => match section_of(html, section_id(ver, rev, "1"@)) {
            Some((Some(pt), links)) => {
                let rest = pt.subrange(12, pt.len() as int);
                let text = rest.subrange(0, rest.len() - 1) + "-00:00:00"@;
                match date_time_parsed(text, lts_date_format()) {
                    Some(date) => match changes_of(html, section_id(ver, rev, "2"@)) {
                        Some(items) => law_lts_links_skip_installers(links, v, changelog_of(items), date, path, os, archive),
                        None => {},
                    },
                    None => {},
                }
            },
            _ => {},
        },
        None => {},
    }
}

/// No package that a long-term support release page gives has an address
/// ending in `.msi`: the page's Windows installers are never packages.
pub proof fn law_lts_page_skips_installers(html: Seq<char>, ver: Seq<char>, path: Seq<char>, os: crate::package::Os, archive: Seq<PackageV>, rev: nat, fuel: nat)
    ensures
        lts_from(html, ver, path, os, archive, rev, fuel) matches Ok(ps) ==> no_msi_url(ps),
    decreases fuel,
{
    if fuel > 0 {
        match text_by_id(html, lts_id(ver, rev)) {
            Some(title) => {
                lemma_lts_release_no_msi(html, ver, path, os, archive, rev, title);
                law_lts_page_skips_installers(html, ver, path, os, archive, rev + 1, (fuel - 1) as nat);
                match (lts_release(html, ver, path, os, archive, rev, title), lts_from(html, ver, path, os, archive, rev + 1, (fuel - 1) as nat)) {
                    (Ok(ps), Ok(rest)) => {
                        assert forall|k: int| 0 <= k < (ps + rest).len() implies !has_suffix((#[trigger] (ps + rest)[k]).url, ".msi"@) by {
                            if k < ps.len() {
                                assert((ps + rest)[k] == ps[k]);
                            } else {
                                assert((ps + rest)[k] == rest[k - ps.len()]);
                            }
                        }
                    },
                    _ => {},
                }
            },
            None => {},
        }
    }
}

} // verus!
