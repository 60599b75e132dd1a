//! The latest stable release, read from the download page.
use crate::dates::{date_time_parsed, parse_date_time};
use crate::helpers::{package_stem, try_get_file_stem};
use crate::package::{Build, BuildType, BuildTypeV, BuildV, Os, Package, PackageState, PackageStateV, PackageStatus, PackageV};
use crate::releases::lts::archived_date;
use crate::releases::stable_archive::{release_url, release_url_spec};
use crate::releases::views;
use crate::text::{
    find_text, first_occurrence, has_prefix, has_suffix, lemma_first_occurrence, replace_text, replaced,
    slice, strip_prefix, strip_suffix,
};
use crate::version::{is_version, readable_version};
use select::document::Document;
use select::predicate::{Attr, Class, Name};
use vstd::prelude::*;

verus! {

/// The address of the download page.
pub open spec fn download_url_spec() -> Seq<char> {
    "https://www.blender.org/download/"@
}

/// The address of the download page.
pub fn download_url() -> (r: &'static str)
    ensures
        r@ == download_url_spec(),
{
    "https://www.blender.org/download/"
}

/// The id of the download page's part for the operating system.
pub open spec fn download_id(os: Os) -> Seq<char> {
    match os {
        Os::Linux => "linux"@,
        Os::Windows => "windows"@,
        Os::MacOs => "macos"@,
    }
}

/// The id of the download page's part for the operating system.
fn download_id_of(os: Os) -> (r: &'static str)
    ensures
        r@ == download_id(os),
{
    match os {
        Os::Linux => "linux",
        Os::Windows => "windows",
        Os::MacOs => "macos",
    }
}

/// Of the page's first element with that id, as `select` finds it: the text
/// and the target of its first link, each `None` where it is missing.
pub uninterp spec fn download_link_of(html: Seq<char>, id: Seq<char>) -> Option<(Option<Seq<char>>, Option<Seq<char>>)>;

/// The text and the target of the first link of the page's first element
/// with that id, read by `select` (`find(Attr("id", id))`,
/// `find(Name("a"))`, `text`, `attr("href")`). Claimed: the result is
/// `download_link_of` the page and the id.
#[verifier::external_body]
fn download_link(html: &str, id: &str) -> (r: Option<(Option<String>, Option<String>)>)
    ensures
        match r {
            Some((t, h)) => download_link_of(html@, id@) == Some((opt(t), opt(h))),
            None => download_link_of(html@, id@) is None,
        },
{
    let document = Document::from(html);
    let node = document.find(Attr("id", id)).next()?;
    match node.find(Name("a")).next() {
        Some(a) => Some((Some(a.text()), match a.attr("href") {
            Some(h) => Some(h.to_string()),
            None => None,
        })),
        None => Some((None, None)),
    }
}

/// Of the page's first element with that id, as `select` finds it: the
/// text of the first `small` element of its first element of class
/// `dl-build-details-popup`, `None` where it is missing.
pub uninterp spec fn download_details_of(html: Seq<char>, id: Seq<char>) -> Option<Option<Seq<char>>>;

/// The details of the page's first element with that id, read by `select`
/// (`find(Attr("id", id))`, `find(Class("dl-build-details-popup"))`,
/// `find(Name("small"))`, `text`). Claimed: the result is
/// `download_details_of` the page and the id.
#[verifier::external_body]
fn download_details(html: &str, id: &str) -> (r: Option<Option<String>>)
    ensures
        match r {
            Some(d) => download_details_of(html@, id@) == Some(opt(d)),
            None => download_details_of(html@, id@) is None,
        },
{
    let document = Document::from(html);
    let node = document.find(Attr("id", id)).next()?;
    match node.find(Class("dl-build-details-popup")).next() {
        Some(popup) => match popup.find(Name("small")).next() {
            Some(small) => Some(Some(small.text())),
            None => Some(None),
        },
        None => Some(None),
    }
}

/// A text that may be missing, as a character sequence.
pub open spec fn opt(t: Option<String>) -> Option<Seq<char>> {
    match t {
        Some(s) => Some(s@),
        None => None,
    }
}

/// Whether `char::is_numeric` accepts the character.
pub uninterp spec fn numeric_char(c: char) -> bool;

/// `char::is_numeric`. Claimed: the result is `numeric_char` of the character.
#[verifier::external_body]
fn is_numeric(c: char) -> (r: bool)
    ensures
        r == numeric_char(c),
{
    c.is_numeric()
}

/// The ASCII punctuation characters, as `char::is_ascii_punctuation` documents them.
pub open spec fn ascii_punctuation(c: char) -> bool {
    let n = c as u32;
    (0x21 <= n <= 0x2f) || (0x3a <= n <= 0x40) || (0x5b <= n <= 0x60) || (0x7b <= n <= 0x7e)
}

/// The characters of the text that are numeric or ASCII punctuation, in order.
pub open spec fn version_chars(s: Seq<char>) -> Seq<char>
    decreases s.len(),
{
    if s.len() == 0 {
        s
    } else if numeric_char(s.last()) || ascii_punctuation(s.last()) {
        version_chars(s.drop_last()).push(s.last())
    } else {
        version_chars(s.drop_last())
    }
}

/// The characters of the text that are numeric or ASCII punctuation.
fn keep_version_chars(s: &str) -> (r: String)
    ensures
        r@ == version_chars(s@),
{
    let n = s.unicode_len();
    let mut r = String::new();
    let mut i: usize = 0;
    assert(s@.take(0) =~= Seq::<char>::empty());
    while i < n
        invariant
            n == s@.len(),
            0 <= i <= n,
            r@ == version_chars(s@.take(i as int)),
        decreases n - i,
    {
        assert(s@.take(i + 1).drop_last() =~= s@.take(i as int));
        let c = s.get_char(i);
        let n_c = c as u32;
        let punct = (0x21 <= n_c && n_c <= 0x2f) || (0x3a <= n_c && n_c <= 0x40) || (0x5b <= n_c
            && n_c <= 0x60) || (0x7b <= n_c && n_c <= 0x7e);
        if is_numeric(c) || punct {
            let piece = s.substring_char(i, i + 1);
            r.append(piece);
            assert(piece@ =~= seq![s@[i as int]]);
        }
        i = i + 1;
    }
    assert(s@.take(n as int) =~= s@);
    r
}

/// Why the download page could not be read.
#[derive(Clone, Copy, Debug, PartialEq, Eq, Structural)]
pub enum StableError {
    /// The page has no part for the operating system.
    NoDownload,
    /// That part has no link.
    NoLink,
    /// The link's target is not a release on the download page's server.
    NotARelease,
    /// The link's text is not a version.
    BadVersion,
    /// That part has no details.
    NoDetails,
    /// The details have no date.
    NoDate,
    /// The date cannot be read.
    BadDate,
    /// The archive's name has no stem.
    NoName,
}

/// The format of the release dates, with the time appended.
pub open spec fn release_date_format() -> Seq<char> {
    "%B %d, %Y-%T"@
}

/// The text from the first `on ` on (`on` and the character after it left
/// out) up to the first ` ·`, where both are there in that order.
pub open spec fn date_between(d: Seq<char>) -> Option<Seq<char>> {
    let k = first_occurrence(d, "on"@, 0);
    if k < 0 || k + 3 > d.len() {
        None
    } else {
        let rest = d.subrange(k + 3, d.len() as int);
        let j = first_occurrence(rest, " ·"@, 0);
        if j < 0 {
            None
        } else {
            Some(rest.subrange(0, j))
        }
    }
}

/// The latest stable release that the download page shows for the
/// operating system, with the name of its version's directory on the
/// mirror: the part's link leads to `release/`, the directory and the
/// archive; its text, kept to numerals and punctuation, is the version; the
/// archive (a `.msi` installer taken as its `.zip`) is on the mirror; the
/// date follows `on ` in the details.
pub open spec fn stable_latest_of(html: Seq<char>, os: Os) -> Result<(PackageV, Seq<char>), StableError> {
    match download_link_of(html, download_id(os)) {
        None => Err(StableError::NoDownload),
        Some((text, target)) => match (text, target) {
            (Some(t), Some(h)) => {
                let url = download_url_spec();
                let rel = h.subrange(url.len() as int, h.len() as int);
                let rest = rel.subrange(8, rel.len() as int);
                let slash = first_occurrence(rest, "/"@, 0);
                if !has_prefix(h, url) || !has_prefix(rel, "release/"@) || slash < 0 {
                    Err(StableError::NotARelease)
                } else if !readable_version(version_chars(t)) {
                    Err(StableError::BadVersion)
                } else if !has_suffix(rel, "/"@) {
                    Err(StableError::NotARelease)
                } else {
                    let archive_url = release_url_spec() + replaced(rel.subrange(0, rel.len() - 1), ".msi"@, ".zip"@);
                    match download_details_of(html, download_id(os)) {
                        None => Err(StableError::NoDetails),
                        Some(None) => Err(StableError::NoDetails),
                        Some(Some(d)) => match date_between(d) {
                            None => Err(StableError::NoDate),
                            Some(day) => match date_time_parsed(day + "-00:00:00"@, release_date_format()) {
                                None => Err(StableError::BadDate),
                                Some(date) => if package_stem(archive_url) is None {
                                    Err(StableError::NoName)
                                } else {
                                    Ok(
                                        (
                                            PackageV {
                                                version: version_chars(t),
                                                name: package_stem(archive_url)->0,
                                                build: BuildV::StableLatest,
                                                date,
                                                commit: Seq::empty(),
                                                url: archive_url,
                                                os,
                                                changelog: Seq::empty(),
                                                state: PackageStateV::Fetched,
                                                status: PackageStatus::Old,
                                                index: 0,
                                                build_type: BuildTypeV::Unset,
                                            },
                                            rest.subrange(0, slash),
                                        ),
                                    )
                                },
                            },
                        },
                    }
                }
            },
            _ => Err(StableError::NoLink),
        },
    }
}

/// The text from the first `on ` on up to the first ` ·` after it.
fn date_text(d: &str) -> (r: Option<String>)
    ensures
        match r {
            Some(x) => date_between(d@) == Some(x@),
            None => date_between(d@) is None,
        },
{
    let k = match find_text(d, "on") {
        Some(k) => k,
        None => return None,
    };
    let n = d.unicode_len();
    if k > n || n - k < 3 {
        return None;
    }
    let rest = slice(d, k + 3, n);
    match find_text(rest.as_str(), " ·") {
        Some(j) => {
            proof {
                lemma_first_occurrence(rest@, " ·"@, 0);
            }
            Some(slice(rest.as_str(), 0, j))
        },
        None => None,
    }
}

/// The latest stable release that the download page shows for the
/// operating system, with the name of its version's directory on the
/// mirror, or why the page cannot be read.
pub fn stable_latest_package(html: &str, os: Os) -> (r: Result<(Package, String), StableError>)
    ensures
        match r {
            Ok((p, dir)) => stable_latest_of(html@, os) == Ok::<(PackageV, Seq<char>), StableError>((p@, dir@)),
            Err(e) => stable_latest_of(html@, os) == Err::<(PackageV, Seq<char>), StableError>(e),
        },
{
    let (text, target) = match download_link(html, download_id_of(os)) {
        Some(parts) => parts,
        None => return Err(StableError::NoDownload),
    };
    let (t, h) = match (text, target) {
        (Some(t), Some(h)) => (t, h),
        _ => return Err(StableError::NoLink),
    };
    let rel = match strip_prefix(h.as_str(), download_url()) {
        Some(rel) => rel,
        None => return Err(StableError::NotARelease),
    };
    let rest = match strip_prefix(rel.as_str(), "release/") {
        Some(rest) => rest,
        None => return Err(StableError::NotARelease),
    };
    proof {
        reveal_strlit("release/");
        reveal_strlit("/");
        reveal_strlit(".msi");
    }
    let slash = match find_text(rest.as_str(), "/") {
        Some(k) => k,
        None => return Err(StableError::NotARelease),
    };
    proof {
        lemma_first_occurrence(rest@, "/"@, 0);
    }
    let dir = slice(rest.as_str(), 0, slash);
    let version = keep_version_chars(t.as_str());
    if !is_version(version.as_str()) {
        return Err(StableError::BadVersion);
    }
    let archive = match strip_suffix(rel.as_str(), "/") {
        Some(a) => a,
        None => return Err(StableError::NotARelease),
    };
    let url = String::from_str(release_url()).concat(replace_text(archive.as_str(), ".msi", ".zip").as_str());
    let d = match download_details(html, download_id_of(os)) {
        Some(Some(d)) => d,
        _ => return Err(StableError::NoDetails),
    };
    let day = match date_text(d.as_str()) {
        Some(day) => day,
        None => return Err(StableError::NoDate),
    };
    let date = match parse_date_time(day.concat("-00:00:00").as_str(), "%B %d, %Y-%T") {
        Some(date) => date,
        None => return Err(StableError::BadDate),
    };
    let name = match try_get_file_stem(url.as_str()) {
        Some(name) => name,
        None => return Err(StableError::NoName),
    };
    let package = Package {
        version,
        name,
        build: Build::StableLatest,
        date,
        commit: String::new(),
        url,
        os,
        changelog: Vec::new(),
        state: PackageState::Fetched,
        status: PackageStatus::Old,
        index: 0,
        build_type: BuildType::Unset,
    };
    proof {
        assert(package.changelog@.map_values(|c: crate::package::Change| c@) =~= Seq::empty());
    }
    Ok((package, dir))
}

/// The latest stable release dated as the same archive on the mirror, if
/// the mirror lists it.
pub fn dated_by_archive(package: Package, archive: &Vec<Package>) -> (r: Package)
    ensures
        r@ == (PackageV { date: archived_date(views(archive@), package.url@, package.date, 0), ..package@ }),
{
    let mut p = package;
    let ghost a = views(archive@);
    let mut i: usize = 0;
    while i < archive.len()
        invariant
            0 <= i <= archive.len(),
            a == views(archive@),
            p == package,
            archived_date(a, package.url@, package.date, 0) == archived_date(a, package.url@, package.date, i as int),
        decreases archive.len() - i,
    {
        assert(a[i as int] == archive@[i as int]@);
        if crate::text::same_text(archive[i].url.as_str(), p.url.as_str()) {
            p.date = archive[i].date;
            return p;
        }
        i = i + 1;
    }
    p
}

} // verus!
