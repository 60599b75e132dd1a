//! Long-term support releases, read from the release page of each series.
use crate::dates::{date_time_parsed, parse_date_time};
use crate::helpers::{package_stem, try_get_file_stem};
use crate::package::{
    Build, BuildType, BuildTypeV, BuildV, Change, Os, Package, PackageState, PackageStateV,
    PackageStatus, PackageV, is_builder_build,
};
use crate::releases::stable_archive::{option_texts, release_url, release_url_spec};
use crate::releases::views;
use crate::sorting::{one_family, sort_packages, sorted, stably_rearranged};
use crate::text::{
    contains, decimal, decimal_spec, ends_with, has_infix, has_prefix, has_suffix, nth_word,
    nth_word_from, same_text, split_terminator, strip_prefix, strip_suffix, terminated_pieces,
    texts, trim_end_matches, trimmed_end,
};
use crate::version::{is_version, readable_version};
use select::document::Document;
use select::predicate::{Attr, Name};
use vstd::prelude::*;

verus! {

/// The series of long-term support releases: the address of the series'
/// release page, its number as the page's ids write it, and the
/// directory of its archives on the mirror.
pub fn lts_series() -> (r: Vec<(&'static str, &'static str, &'static str)>)
    ensures
        r@.len() == 2,
        r@[0].0@ == "https://www.blender.org/download/lts/2-83/"@,
        r@[0].1@ == "283"@,
        r@[0].2@ == "Blender2.83/"@,
        r@[1].0@ == "https://www.blender.org/download/lts/2-93/"@,
        r@[1].1@ == "293"@,
        r@[1].2@ == "Blender2.93/"@,
{
    vec![
        ("https://www.blender.org/download/lts/2-83/", "283", "Blender2.83/"),
        ("https://www.blender.org/download/lts/2-93/", "293", "Blender2.93/"),
    ]
}

/// The id of the title of the release `rev` of the series `ver`.
pub open spec fn lts_id(ver: Seq<char>, rev: nat) -> Seq<char> {
    "lts-release-"@ + ver + decimal_spec(rev)
}

/// The id of a section (`part` is `1` for the downloads, `2` for the
/// changes) of the release `rev` of the series `ver`.
pub open spec fn section_id(ver: Seq<char>, rev: nat, part: Seq<char>) -> Seq<char> {
    "faq-lts-release-"@ + ver + decimal_spec(rev) + "-"@ + part
}

/// The text of the page's first element with that id, as `select` finds it.
pub uninterp spec fn text_by_id(html: Seq<char>, id: Seq<char>) -> Option<Seq<char>>;

/// The text of the page's first element with that id, read by `select`
/// (`find(Attr("id", id))`, `text`). Claimed: the result is `text_by_id`
/// the page and the id.
#[verifier::external_body]
fn element_text(html: &str, id: &str) -> (r: Option<String>)
    ensures
        match r {
            Some(t) => text_by_id(html@, id@) == Some(t@),
            None => text_by_id(html@, id@) is None,
        },
{
    match Document::from(html).find(Attr("id", id)).next() {
        Some(node) => Some(node.text()),
        None => None,
    }
}

/// Of the page's first element with that id, as `select` finds it: the
/// text of its first paragraph, if any, and the targets of its links in
/// order (`None` for a link without one).
pub uninterp spec fn section_of(html: Seq<char>, id: Seq<char>) -> Option<(Option<Seq<char>>, Seq<Option<Seq<char>>>)>;

/// The first paragraph and the links of the page's first element with that
/// id, read by `select` (`find(Name("p"))`, `find(Name("a"))`,
/// `attr("href")`). Claimed: the result is `section_of` the page and the id.
#[verifier::external_body]
fn section(html: &str, id: &str) -> (r: Option<(Option<String>, Vec<Option<String>>)>)
    ensures
        match r {
            Some((p, links)) => section_of(html@, id@) == Some(
                (
                    match p {
                        Some(t) => Some(t@),
                        None => None,
                    },
                    option_texts(links@),
                ),
            ),
            None => section_of(html@, id@) is None,
        },
{
    let document = Document::from(html);
    let node = document.find(Attr("id", id)).next()?;
    let paragraph = match node.find(Name("p")).next() {
        Some(p) => Some(p.text()),
        None => None,
    };
    let mut links = Vec::new();
    for a in node.find(Name("a")) {
        links.push(match a.attr("href") {
            Some(target) => Some(target.to_string()),
            None => None,
        });
    }
    Some((paragraph, links))
}

/// The list items of the page's first element with that id, as `select`
/// finds them: the text of each, and the target of its first link if it
/// has one with a target.
pub uninterp spec fn changes_of(html: Seq<char>, id: Seq<char>) -> Option<Seq<(Seq<char>, Option<Seq<char>>)>>;

/// The texts and first links of the list items of the page's first element
/// with that id, read by `select` (`find(Name("li"))`, `text`,
/// `find(Name("a"))`, `attr("href")`). Claimed: the result is `changes_of`
/// the page and the id.
#[verifier::external_body]
fn changes(html: &str, id: &str) -> (r: Option<Vec<(String, Option<String>)>>)
    ensures
        match r {
            Some(v) => changes_of(html@, id@) == Some(item_texts(v@)),
            None => changes_of(html@, id@) is None,
        },
{
    let document = Document::from(html);
    let node = document.find(Attr("id", id)).next()?;
    let mut items = Vec::new();
    for li in node.find(Name("li")) {
        let link = match li.find(Name("a")).next() {
            Some(a) => match a.attr("href") {
                Some(target) => Some(target.to_string()),
                None => None,
            },
            None => None,
        };
        items.push((li.text(), link));
    }
    Some(items)
}

/// List items as texts.
pub open spec fn item_texts(v: Seq<(String, Option<String>)>) -> Seq<(Seq<char>, Option<Seq<char>>)> {
    v.map_values(
        |it: (String, Option<String>)|
            (
                it.0@,
                match it.1 {
                    Some(h) => Some(h@),
                    None => None,
                },
            ),
    )
}

/// Why a release page could not be read.
#[derive(Clone, Copy, Debug, PartialEq, Eq, Structural)]
pub enum LtsError {
    /// A release's title has no third word.
    NoVersion,
    /// That word is not a version.
    BadVersion,
    /// A release has no section of downloads.
    NoSection,
    /// The section of downloads has no paragraph.
    NoParagraph,
    /// The release date does not end with a period.
    NoPeriod,
    /// The release date cannot be read.
    BadDate,
    /// A release has no section of changes.
    NoChangelog,
    /// A download link has no target.
    NoLinkTarget,
    /// A download link names no archive.
    NoArchiveName,
    /// An archive's name has no stem.
    NoName,
}

/// The mark of the operating system in the names of its archives.
pub open spec fn lts_os_mark(os: Os) -> Seq<char> {
    match os {
        Os::Linux => "linux"@,
        Os::Windows => "windows"@,
        Os::MacOs => "mac"@,
    }
}

/// The mark of the operating system in the names of its archives.
fn lts_os_mark_of(os: Os) -> (r: &'static str)
    ensures
        r@ == lts_os_mark(os),
{
    match os {
        Os::Linux => "linux",
        Os::Windows => "windows",
        Os::MacOs => "mac",
    }
}

/// The changes of a release: each item's text, with its link or nothing.
pub open spec fn changelog_of(items: Seq<(Seq<char>, Option<Seq<char>>)>) -> Seq<(Seq<char>, Seq<char>)> {
    items.map_values(
        |it: (Seq<char>, Option<Seq<char>>)|
            (
                it.0,
                match it.1 {
                    Some(h) => h,
                    None => Seq::<char>::empty(),
                },
            ),
    )
}

/// The date of the archive at `url`: that of the first archived package
/// found there from position `i` on, else the release date.
pub open spec fn archived_date(archive: Seq<PackageV>, url: Seq<char>, date: i64, i: int) -> i64
    decreases archive.len() - i,
{
    if i < 0 || i >= archive.len() {
        date
    } else if archive[i].url == url {
        archive[i].date
    } else {
        archived_date(archive, url, date, i + 1)
    }
}

/// The packages of a release's download links, in order, or the first failure.
pub open spec fn lts_links(links: Seq<Option<Seq<char>>>, version: Seq<char>, changelog: Seq<(Seq<char>, Seq<char>)>, date: i64, path: Seq<char>, os: Os, archive: Seq<PackageV>) -> Result<Seq<PackageV>, LtsError>
    decreases links.len(),
{
    if links.len() == 0 {
        Ok(Seq::empty())
    } else {
        match lts_links(links.drop_last(), version, changelog, date, path, os, archive) {
            Err(e) => Err(e),
            Ok(ps) => match links.last() {
                None => Err(LtsError::NoLinkTarget),
                Some(h) => {
                    let pieces = terminated_pieces(trimmed_end(h, "?x69806"@), "/"@);
                    if pieces.len() == 0 {
                        Err(LtsError::NoArchiveName)
                    } else {
                        let a = pieces.last();
                        let url = release_url_spec() + path + a;
                        if has_suffix(a, ".msi"@) || !has_infix(a, lts_os_mark(os)) {
                            Ok(ps)
                        } else if package_stem(a) is None {
                            Err(LtsError::NoName)
                        } else {
                            Ok(
                                ps.push(
                                    PackageV {
                                        version,
                                        name: package_stem(a)->0,
                                        build: BuildV::Lts,
                                        date: archived_date(archive, url, date, 0),
                                        commit: Seq::empty(),
                                        url,
                                        os,
                                        changelog,
                                        state: PackageStateV::Fetched,
                                        status: PackageStatus::Old,
                                        index: 0,
                                        build_type: BuildTypeV::Unset,
                                    },
                                ),
                            )
                        }
                    }
                },
            },
        }
    }
}

/// The format of the release dates, with the time appended.
pub open spec fn lts_date_format() -> Seq<char> {
    "%B %d, %Y-%T"@
}

/// The packages of the release `rev` of the series `ver`, titled `title`:
/// none where its downloads are not said to be released; otherwise its
/// version is the title's third word, its date the one it is released on.
pub open spec fn lts_release(html: Seq<char>, ver: Seq<char>, path: Seq<char>, os: Os, archive: Seq<PackageV>, rev: nat, title: Seq<char>) -> Result<Seq<PackageV>, LtsError> {
    match nth_word_from(title, 0, 2) {
        None => Err(LtsError::NoVersion),
        Some(v) => if !readable_version(v) {
            Err(LtsError::BadVersion)
        } else {
            match section_of(html, section_id(ver, rev, "1"@)) {
                None => Err(LtsError::NoSection),
                Some((paragraph, links)) => match paragraph {
                    None => Err(LtsError::NoParagraph),
                    Some(pt) => if !has_prefix(pt, "Released on "@) {
                        Ok(Seq::empty())
                    } else {
                        let rest = pt.subrange(12, pt.len() as int);
                        if !has_suffix(rest, "."@) {
                            Err(LtsError::NoPeriod)
                        } else {
                            let text = rest.subrange(0, rest.len() - 1) + "-00:00:00"@;
                            match date_time_parsed(text, lts_date_format()) {
                                None => Err(LtsError::BadDate),
                                Some(date) => match changes_of(html, section_id(ver, rev, "2"@)) {
                                    None => Err(LtsError::NoChangelog),
                                    Some(items) => lts_links(
                                        links,
                                        v,
                                        changelog_of(items),
                                        date,
                                        path,
                                        os,
                                        archive,
                                    ),
                                },
                            }
                        }
                    },
                },
            }
        },
    }
}

/// The views of a list of changes.
pub open spec fn change_views(v: Seq<Change>) -> Seq<(Seq<char>, Seq<char>)> {
    v.map_values(|c: Change| c@)
}

/// A copy of the changes.
fn copy_changes(v: &Vec<Change>) -> (r: Vec<Change>)
    ensures
        change_views(r@) == change_views(v@),
{
    let mut res: Vec<Change> = Vec::new();
    let mut i: usize = 0;
    while i < v.len()
        invariant
            0 <= i <= v.len(),
            res@ == v@.take(i as int),
        decreases v.len() - i,
    {
        res.push(v[i].clone());
        assert(res@ =~= v@.take(i + 1));
        i = i + 1;
    }
    assert(v@.take(i as int) =~= v@);
    res
}

/// The changes of a release, from its list items.
fn changelog_from(items: Vec<(String, Option<String>)>) -> (r: Vec<Change>)
    ensures
        change_views(r@) == changelog_of(item_texts(items@)),
{
    let ghost all = item_texts(items@);
    let mut res: Vec<Change> = Vec::new();
    let mut i: usize = 0;
    while i < items.len()
        invariant
            0 <= i <= items.len(),
            all == item_texts(items@),
            change_views(res@) == changelog_of(all.take(i as int)),
        decreases items.len() - i,
    {
        let (text, link) = (items[i].0.clone(), items[i].1.clone());
        let url = match link {
            Some(h) => h,
            None => String::new(),
        };
        let ghost before = change_views(res@);
        res.push(Change { text, url });
        assert(change_views(res@) =~= before.push(res@.last()@));
        assert(changelog_of(all.take(i + 1)) =~= changelog_of(all.take(i as int)).push(
            changelog_of(all)[i as int],
        ));
        i = i + 1;
    }
    assert(all.take(i as int) =~= all);
    res
}

/// The date of the archive at `url`: that of the first archived package
/// found there, else the release date.
fn archived_date_of(archive: &Vec<Package>, url: &str, date: i64) -> (r: i64)
    ensures
        r == archived_date(views(archive@), url@, date, 0),
{
    let ghost a = views(archive@);
    let mut i: usize = 0;
    while i < archive.len()
        invariant
            0 <= i <= archive.len(),
            a == views(archive@),
            archived_date(a, url@, date, 0) == archived_date(a, url@, date, i as int),
        decreases archive.len() - i,
    {
        assert(a[i as int] == archive@[i as int]@);
        if same_text(archive[i].url.as_str(), url) {
            return archive[i].date;
        }
        i = i + 1;
    }
    date
}

/// The packages of a release's download links, in order, or the first failure.
fn link_packages(links: &Vec<Option<String>>, version: &str, changelog: &Vec<Change>, date: i64, path: &str, os: Os, archive: &Vec<Package>) -> (r: Result<Vec<Package>, LtsError>)
    ensures
        match r {
            Ok(v) => lts_links(option_texts(links@), version@, change_views(changelog@), date, path@, os, views(archive@)) == Ok::<Seq<PackageV>, LtsError>(views(v@)),
            Err(e) => lts_links(option_texts(links@), version@, change_views(changelog@), date, path@, os, views(archive@)) == Err::<Seq<PackageV>, LtsError>(e),
        },
{
    let ghost all = option_texts(links@);
    let ghost cl = change_views(changelog@);
    let ghost av = views(archive@);
    let mark = lts_os_mark_of(os);
    let mut res: Vec<Package> = Vec::new();
    let mut i: usize = 0;
    assert(all.take(0) =~= Seq::<Option<Seq<char>>>::empty());
    assert(views(res@) =~= Seq::<PackageV>::empty());
    while i < links.len()
        invariant
            0 <= i <= links.len(),
            all == option_texts(links@),
            cl == change_views(changelog@),
            av == views(archive@),
            mark@ == lts_os_mark(os),
            lts_links(all.take(i as int), version@, cl, date, path@, os, av) == Ok::<Seq<PackageV>, LtsError>(views(res@)),
        decreases links.len() - i,
    {
        assert(all.take(i + 1).drop_last() =~= all.take(i as int));
        let h = match &links[i] {
            Some(h) => h,
            None => {
                proof {
                    lemma_links_fail(all, i as int + 1, version@, cl, date, path@, os, av);
                }
                return Err(LtsError::NoLinkTarget);
            },
        };
        let trimmed = trim_end_matches(h.as_str(), "?x69806");
        proof {
            reveal_strlit("/");
        }
        let pieces = split_terminator(trimmed.as_str(), "/");
        if pieces.len() == 0 {
            proof {
                lemma_links_fail(all, i as int + 1, version@, cl, date, path@, os, av);
            }
            return Err(LtsError::NoArchiveName);
        }
        let a = &pieces[pieces.len() - 1];
        assert(texts(pieces@).last() == a@);
        let url = String::from_str(release_url()).concat(path).concat(a.as_str());
        if ends_with(a.as_str(), ".msi") || !contains(a.as_str(), mark) {
            i = i + 1;
            continue;
        }
        let name = match try_get_file_stem(a.as_str()) {
            Some(name) => name,
            None => {
                proof {
                    lemma_links_fail(all, i as int + 1, version@, cl, date, path@, os, av);
                }
                return Err(LtsError::NoName);
            },
        };
        let package = Package {
            version: String::from_str(version),
            name,
            build: Build::Lts,
            date: archived_date_of(archive, url.as_str(), date),
            commit: String::new(),
            url,
            os,
            changelog: copy_changes(changelog),
            state: PackageState::Fetched,
            status: PackageStatus::Old,
            index: 0,
            build_type: BuildType::Unset,
        };
        let ghost before = views(res@);
        res.push(package);
        assert(views(res@) =~= before.push(res@.last()@));
        i = i + 1;
    }
    assert(all.take(links.len() as int) =~= all);
    Ok(res)
}

/// Once the links up to `i` fail, all of them fail the same way.
proof fn lemma_links_fail(links: Seq<Option<Seq<char>>>, i: int, version: Seq<char>, changelog: Seq<(Seq<char>, Seq<char>)>, date: i64, path: Seq<char>, os: Os, archive: Seq<PackageV>)
    requires
        0 <= i <= links.len(),
        lts_links(links.take(i), version, changelog, date, path, os, archive) is Err,
    ensures
        lts_links(links, version, changelog, date, path, os, archive) == lts_links(links.take(i), version, changelog, date, path, os, archive),
    decreases links.len() - i,
{
    if i < links.len() {
        assert(links.take(i + 1).drop_last() =~= links.take(i));
        lemma_links_fail(links, i + 1, version, changelog, date, path, os, archive);
    } else {
        assert(links.take(i) =~= links);
    }
}

/// The most releases of a series that are looked for.
pub const MAX_RELEASES: usize = 4294967295usize;

/// The packages of the releases of the series `ver` from `rev` on, given
/// as many more releases as `fuel` allows: the releases are read in turn
/// until one has no title.
pub open spec fn lts_from(html: Seq<char>, ver: Seq<char>, path: Seq<char>, os: Os, archive: Seq<PackageV>, rev: nat, fuel: nat) -> Result<Seq<PackageV>, LtsError>
    decreases fuel,
{
    if fuel == 0 {
        Ok(Seq::empty())
    } else {
        match text_by_id(html, lts_id(ver, rev)) {
            None => Ok(Seq::empty()),
            Some(title) => match lts_release(html, ver, path, os, archive, rev, title) {
                Err(e) => Err(e),
                Ok(ps) => match lts_from(html, ver, path, os, archive, rev + 1, (fuel - 1) as nat) {
                    Err(e) => Err(e),
                    Ok(rest) => Ok(ps + rest),
                },
            },
        }
    }
}

/// The ids of a release's parts.
fn section_id_of(ver: &str, rev: usize, part: &str) -> (r: String)
    ensures
        r@ == section_id(ver@, rev as nat, part@),
{
    String::from_str("faq-lts-release-").concat(ver).concat(decimal(rev).as_str()).concat("-").concat(part)
}

/// The packages of the release `rev` of the series `ver`, titled `title`.
fn release_packages(html: &str, ver: &str, path: &str, os: Os, archive: &Vec<Package>, rev: usize, title: &str) -> (r: Result<Vec<Package>, LtsError>)
    ensures
        match r {
            Ok(v) => lts_release(html@, ver@, path@, os, views(archive@), rev as nat, title@) == Ok::<Seq<PackageV>, LtsError>(views(v@)),
            Err(e) => lts_release(html@, ver@, path@, os, views(archive@), rev as nat, title@) == Err::<Seq<PackageV>, LtsError>(e),
        },
{
    let version = match nth_word(title, 2) {
        Some(v) => v,
        None => return Err(LtsError::NoVersion),
    };
    if !is_version(version.as_str()) {
        return Err(LtsError::BadVersion);
    }
    let (paragraph, links) = match section(html, section_id_of(ver, rev, "1").as_str()) {
        Some(parts) => parts,
        None => return Err(LtsError::NoSection),
    };
    let text = match paragraph {
        Some(t) => t,
        None => return Err(LtsError::NoParagraph),
    };
    let rest = match strip_prefix(text.as_str(), "Released on ") {
        Some(rest) => rest,
        None => {
            let empty: Vec<Package> = Vec::new();
            assert(views(empty@) =~= Seq::<PackageV>::empty());
            return Ok(empty);
        },
    };
    proof {
        reveal_strlit("Released on ");
        reveal_strlit(".");
    }
    let day = match strip_suffix(rest.as_str(), ".") {
        Some(day) => day,
        None => return Err(LtsError::NoPeriod),
    };
    let moment = day.concat("-00:00:00");
    let date = match parse_date_time(moment.as_str(), "%B %d, %Y-%T") {
        Some(date) => date,
        None => return Err(LtsError::BadDate),
    };
    let items = match changes(html, section_id_of(ver, rev, "2").as_str()) {
        Some(items) => items,
        None => return Err(LtsError::NoChangelog),
    };
    let changelog = changelog_from(items);
    link_packages(&links, version.as_str(), &changelog, date, path, os, archive)
}

/// The packages of the releases of the series `ver` that its release page
/// `html` shows for the operating system, in the page's order, their
/// archives under the mirror's directory `path`; an archive also listed in
/// `archive` takes its date from there. The releases are read in turn
/// until one has no title.
pub fn lts_packages(html: &str, ver: &str, path: &str, os: Os, archive: &Vec<Package>) -> (r: Result<Vec<Package>, LtsError>)
    ensures
        match r {
            Ok(v) => lts_from(html@, ver@, path@, os, views(archive@), 0, MAX_RELEASES as nat) == Ok::<Seq<PackageV>, LtsError>(views(v@)),
            Err(e) => lts_from(html@, ver@, path@, os, views(archive@), 0, MAX_RELEASES as nat) == Err::<Seq<PackageV>, LtsError>(e),
        },
{
    let ghost av = views(archive@);
    let mut res: Vec<Package> = Vec::new();
    let mut rev: usize = 0;
    assert(views(res@) =~= Seq::<PackageV>::empty());
    while rev < MAX_RELEASES
        invariant
            0 <= rev <= MAX_RELEASES,
            av == views(archive@),
            lts_from(html@, ver@, path@, os, av, 0, MAX_RELEASES as nat) == match lts_from(html@, ver@, path@, os, av, rev as nat, (MAX_RELEASES - rev) as nat) {
                Ok(rest) => Ok::<Seq<PackageV>, LtsError>(views(res@) + rest),
                Err(e) => Err::<Seq<PackageV>, LtsError>(e),
            },
        ensures
            lts_from(html@, ver@, path@, os, av, 0, MAX_RELEASES as nat) == Ok::<Seq<PackageV>, LtsError>(views(res@)),
        decreases MAX_RELEASES - rev,
    {
        let id = String::from_str("lts-release-").concat(ver).concat(decimal(rev).as_str());
        assert(id@ == lts_id(ver@, rev as nat));
        let title = match element_text(html, id.as_str()) {
            Some(t) => t,
            None => {
                assert(views(res@) + Seq::<PackageV>::empty() =~= views(res@));
                break;
            },
        };
        match release_packages(html, ver, path, os, archive, rev, title.as_str()) {
            Ok(ps) => {
                let ghost before = views(res@);
                let mut ps = ps;
                let ghost added = views(ps@);
                res.append(&mut ps);
                assert(views(res@) =~= before + added);
                proof {
                    match lts_from(html@, ver@, path@, os, av, (rev + 1) as nat, (MAX_RELEASES - rev - 1) as nat) {
                        Ok(rest) => {
                            assert(before + (added + rest) =~= (before + added) + rest);
                        },
                        Err(e) => {},
                    }
                }
            },
            Err(e) => return Err(e),
        }
        rev = rev + 1;
    }
    assert(views(res@) + Seq::<PackageV>::empty() =~= views(res@));
    Ok(res)
}

/// Every package is a long-term support release.
pub open spec fn all_lts(ps: Seq<PackageV>) -> bool {
    forall|k: int| 0 <= k < ps.len() ==> (#[trigger] ps[k]).build == BuildV::Lts
}

proof fn lemma_lts_links_lts(links: Seq<Option<Seq<char>>>, version: Seq<char>, changelog: Seq<(Seq<char>, Seq<char>)>, date: i64, path: Seq<char>, os: Os, archive: Seq<PackageV>)
    ensures
        lts_links(links, version, changelog, date, path, os, archive) matches Ok(ps) ==> all_lts(ps),
    decreases links.len(),
{
    if links.len() > 0 {
        lemma_lts_links_lts(links.drop_last(), version, changelog, date, path, os, archive);
        match lts_links(links.drop_last(), version, changelog, date, path, os, archive) {
            Ok(ps) => {
                assert forall|x: PackageV| all_lts(ps) && x.build == BuildV::Lts implies all_lts(ps.push(x)) by {
                    assert forall|k: int| 0 <= k < ps.push(x).len() implies (#[trigger] ps.push(x)[k]).build == BuildV::Lts by {
                        if k < ps.len() {
                            assert(ps.push(x)[k] == ps[k]);
                        }
                    }
                }
            },
            Err(_) => {},
        }
    }
}

proof fn lemma_lts_release_lts(html: Seq<char>, ver: Seq<char>, path: Seq<char>, os: Os, archive: Seq<PackageV>, rev: nat, title: Seq<char>)
    ensures
        lts_release(html, ver, path, os, archive, rev, title) matches Ok(ps) ==> all_lts(ps),
{
    match nth_word_from(title, 0, 2) {
        Some(v) => match section_of(html, section_id(ver, rev, "1"@)) {
            Some((Some(pt), links)) => {
                let rest = pt.subrange(12, pt.len() as int);
                let text = rest.subrange(0, rest.len() - 1) + "-00:00:00"@;
                match date_time_parsed(text, lts_date_format()) {
                    Some(date) => match changes_of(html, section_id(ver, rev, "2"@)) {
                        Some(items) => lemma_lts_links_lts(links, v, changelog_of(items), date, path, os, archive),
                        None => {},
                    },
                    None => {},
                }
            },
            _ => {},
        },
        None => {},
    }
}

proof fn lemma_lts_from_lts(html: Seq<char>, ver: Seq<char>, path: Seq<char>, os: Os, archive: Seq<PackageV>, rev: nat, fuel: nat)
    ensures
        lts_from(html, ver, path, os, archive, rev, fuel) matches Ok(ps) ==> all_lts(ps),
    decreases fuel,
{
    if fuel > 0 {
        match text_by_id(html, lts_id(ver, rev)) {
            Some(title) => {
                lemma_lts_release_lts(html, ver, path, os, archive, rev, title);
                lemma_lts_from_lts(html, ver, path, os, archive, rev + 1, (fuel - 1) as nat);
                match (lts_release(html, ver, path, os, archive, rev, title), lts_from(html, ver, path, os, archive, rev + 1, (fuel - 1) as nat)) {
                    (Ok(ps), Ok(rest)) => {
                        assert forall|k: int| 0 <= k < (ps + rest).len() implies (#[trigger] (ps + rest)[k]).build == BuildV::Lts by {
                            if k < ps.len() {
                                assert((ps + rest)[k] == ps[k]);
                            } else {
                                assert((ps + rest)[k] == rest[k - ps.len()]);
                            }
                        }
                    },
                    _ => {},
                }
            },
            None => {},
        }
    }
}

/// The packages of all the series, each given by its release page, its
/// number as the page's ids write it and the directory of its archives on
/// the mirror: those of each series in turn, or the first series' error.
pub open spec fn lts_all(pages: Seq<(String, String, String)>, os: Os, archive: Seq<PackageV>) -> Result<Seq<PackageV>, LtsError>
    decreases pages.len(),
{
    if pages.len() == 0 {
        Ok(Seq::empty())
    } else {
        match lts_all(pages.drop_last(), os, archive) {
            Err(e) => Err(e),
            Ok(prev) => match lts_from(pages.last().0@, pages.last().1@, pages.last().2@, os, archive, 0, MAX_RELEASES as nat) {
                Err(e) => Err(e),
                Ok(ps) => Ok(prev + ps),
            },
        }
    }
}

/// An error among the first series is the error of all of them.
proof fn lemma_lts_all_err(pages: Seq<(String, String, String)>, j: int, os: Os, archive: Seq<PackageV>)
    requires
        0 <= j <= pages.len(),
        lts_all(pages.take(j), os, archive) is Err,
    ensures
        lts_all(pages, os, archive) == lts_all(pages.take(j), os, archive),
    decreases pages.len(),
{
    if j == pages.len() {
        assert(pages.take(j) =~= pages);
    } else {
        assert(pages.drop_last().take(j) =~= pages.take(j));
        lemma_lts_all_err(pages.drop_last(), j, os, archive);
    }
}

/// Equal multisets of packages have equal multisets of views.
proof fn lemma_views_multiset(a: Seq<Package>, b: Seq<Package>)
    requires
        a.to_multiset() == b.to_multiset(),
    ensures
        views(a).to_multiset() == views(b).to_multiset(),
    decreases a.len(),
{
    broadcast use vstd::seq_lib::group_to_multiset_ensures;
    if a.len() == 0 {
        assert(b.to_multiset().len() == 0);
        assert(b.len() == 0);
        assert(views(a) =~= views(b));
    } else {
        let x = a.last();
        assert(a =~= a.drop_last().push(x));
        assert(a.to_multiset().count(x) > 0);
        assert(b.contains(x));
        let i = choose|i: int| 0 <= i < b.len() && b[i] == x;
        let b2 = b.remove(i);
        assert(b2.to_multiset() =~= b.to_multiset().remove(x));
        assert(a.drop_last().to_multiset() =~= a.to_multiset().remove(x));
        lemma_views_multiset(a.drop_last(), b2);
        assert(views(a) =~= views(a.drop_last()).push(x@));
        assert(views(b2) =~= views(b).remove(i));
        assert(views(b)[i] == x@);
        assert(views(b).remove(i).to_multiset() =~= views(b).to_multiset().remove(x@));
        assert(views(b).to_multiset().count(x@) > 0) by {
            assert(views(b).contains(x@));
        }
        assert(views(b).to_multiset() =~= views(b2).to_multiset().insert(x@));
    }
}

/// The packages of all the series, in the order of packages: those of
/// each series' release page in turn (see `lts_packages`), sorted; or the
/// error of the first series that has one.
pub fn lts_list(pages: &Vec<(String, String, String)>, os: Os, archive: &Vec<Package>) -> (r: Result<Vec<Package>, LtsError>)
    ensures
        match r {
            Ok(v) => lts_all(pages@, os, views(archive@)) matches Ok(all)
                && views(v@).to_multiset() == all.to_multiset() && stably_rearranged(all, views(v@))
                && sorted(v@),
            Err(e) => lts_all(pages@, os, views(archive@)) == Err::<Seq<PackageV>, LtsError>(e),
        },
{
    let ghost av = views(archive@);
    let mut all: Vec<Package> = Vec::new();
    let mut i: usize = 0;
    assert(pages@.take(0) =~= Seq::<(String, String, String)>::empty());
    assert(views(all@) =~= Seq::<PackageV>::empty());
    while i < pages.len()
        invariant
            0 <= i <= pages.len(),
            av == views(archive@),
            lts_all(pages@.take(i as int), os, av) == Ok::<Seq<PackageV>, LtsError>(views(all@)),
            all_lts(views(all@)),
        decreases pages.len() - i,
    {
        let page = &pages[i];
        assert(pages@.take(i + 1).drop_last() =~= pages@.take(i as int));
        assert(pages@.take(i + 1).last() == pages@[i as int]);
        match lts_packages(page.0.as_str(), page.1.as_str(), page.2.as_str(), os, archive) {
            Ok(ps) => {
                proof {
                    lemma_lts_from_lts(page.0@, page.1@, page.2@, os, av, 0, MAX_RELEASES as nat);
                }
                let ghost before = views(all@);
                let ghost added = views(ps@);
                let mut ps = ps;
                all.append(&mut ps);
                assert(views(all@) =~= before + added);
                assert forall|k: int| 0 <= k < views(all@).len() implies (#[trigger] views(all@)[k]).build == BuildV::Lts by {
                    if k < before.len() {
                        assert(views(all@)[k] == before[k]);
                    } else {
                        assert(views(all@)[k] == added[k - before.len()]);
                    }
                }
            },
            Err(e) => {
                proof {
                    lemma_lts_all_err(pages@, i + 1, os, av);
                }
                return Err(e);
            },
        }
        i = i + 1;
    }
    assert(pages@.take(i as int) =~= pages@);
    assert(one_family(all@)) by {
        assert forall|k: int| 0 <= k < all@.len() implies !is_builder_build(#[trigger] all@[k].build@) by {
            assert(views(all@)[k] == all@[k]@);
        }
    }
    let ghost before_sort = all@;
    let v = sort_packages(all);
    proof {
        lemma_views_multiset(v@, before_sort);
    }
    Ok(v)
}

} // verus!
