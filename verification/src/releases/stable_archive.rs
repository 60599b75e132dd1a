//! Stable releases kept on the release mirror: one directory per version,
//! each listing the archives of that version, with their dates.
use crate::dates::{date_time_parsed, find_match, parse_date_time, regex_found};
use crate::helpers::{package_stem, try_get_file_stem};
use crate::package::{
    BuildTypeV, BuildV, Os, Package, PackageStateV, PackageStatus, PackageV,
};
use crate::text::{
    contains, count_char, count_of, ends_with, has_infix, has_prefix, has_suffix, remove_char, same_text,
    slice, split_terminator, starts_with, terminated_pieces, texts, without_char,
};
use crate::version::{is_version, readable_version};
use crate::releases::views;
use crate::sorting::{one_family, sort_packages, sorted, stably_rearranged};
use select::document::Document;
use select::predicate::Name;
use vstd::prelude::*;

verus! {

/// The address of the mirror's directory of releases.
pub open spec fn release_url_spec() -> Seq<char> {
    "https://ftp.nluug.nl/pub/graphics/blender/release/"@
}

/// The address of the mirror's directory of releases.
pub fn release_url() -> (r: &'static str)
    ensures
        r@ == release_url_spec(),
{
    "https://ftp.nluug.nl/pub/graphics/blender/release/"
}

/// Texts that may be missing, as character sequences.
pub open spec fn option_texts(s: Seq<Option<String>>) -> Seq<Option<Seq<char>>> {
    s.map_values(
        |o: Option<String>|
            match o {
                Some(t) => Some(t@),
                None => None,
            },
    )
}

/// The targets (`href`) of the page's links, in order, as `select` finds
/// the `a` elements; `None` for a link without one.
pub uninterp spec fn links_of(html: Seq<char>) -> Seq<Option<Seq<char>>>;

/// The targets of the page's links, read by `select` (`Document::from`,
/// `find(Name("a"))`, `attr("href")`). Claimed: the result is `links_of`
/// the page.
#[verifier::external_body]
pub(crate) fn page_links(html: &str) -> (r: Vec<Option<String>>)
    ensures
        option_texts(r@) == links_of(html@),
{
    let document = Document::from(html);
    let mut links = Vec::new();
    for node in document.find(Name("a")) {
        links.push(match node.attr("href") {
            Some(target) => Some(target.to_string()),
            None => None,
        });
    }
    links
}

/// The children of the page's first `pre` element, in order, as `select`
/// finds them: the text of each text node, `None` for the others; `None`
/// where the page has no `pre` element.
pub uninterp spec fn pre_texts_of(html: Seq<char>) -> Option<Seq<Option<Seq<char>>>>;

/// The children of the page's first `pre` element, read by `select`
/// (`find(Name("pre"))`, `children`, `as_text`). Claimed: the result is
/// `pre_texts_of` the page.
#[verifier::external_body]
pub(crate) fn pre_texts(html: &str) -> (r: Option<Vec<Option<String>>>)
    ensures
        match r {
            Some(v) => pre_texts_of(html@) == Some(option_texts(v@)),
            None => pre_texts_of(html@) is None,
        },
{
    let document = Document::from(html);
    let pre = document.find(Name("pre")).next()?;
    let mut children = Vec::new();
    for node in pre.children() {
        children.push(match node.as_text() {
            Some(text) => Some(text.to_string()),
            None => None,
        });
    }
    Some(children)
}

/// Why a page of the mirror could not be read.
#[derive(Clone, Copy, Debug, PartialEq, Eq, Structural)]
pub enum ArchiveError {
    /// A link has no target.
    NoLinkTarget,
    /// The page has no list of dates.
    NoDateList,
    /// The directory's name does not begin with `Blender`.
    NotAVersionDir,
    /// There are fewer dates than archives.
    MissingDate,
    /// An archive's name has no second `-`-separated part to read the version from.
    NoVersion,
    /// That part is not a version.
    BadVersion,
    /// An archive's name has no stem to name the package by.
    NoName,
    /// An archive's date cannot be read.
    BadDate,
}

/// A link to the directory of a version.
pub open spec fn is_version_dir(h: Seq<char>) -> bool {
    has_infix(h, "Blender"@) && has_suffix(h, "/"@) && !has_infix(h, "Benchmark"@)
}

/// The links that pass `keep`, in order, or `None` where a link has no target.
pub open spec fn kept_links(links: Seq<Option<Seq<char>>>, dirs: bool) -> Option<Seq<Seq<char>>>
    decreases links.len(),
{
    if links.len() == 0 {
        Some(Seq::empty())
    } else {
        match (kept_links(links.drop_last(), dirs), links.last()) {
            (Some(v), Some(h)) => Some(
                if (dirs && is_version_dir(h)) || (!dirs && is_archive_link(h)) {
                    v.push(h)
                } else {
                    v
                },
            ),
            _ => None,
        }
    }
}

/// A link to an archive: not a directory and not a query.
pub open spec fn is_archive_link(h: Seq<char>) -> bool {
    !has_suffix(h, "/"@) && !has_infix(h, "?"@)
}

/// The directories of the versions that the mirror's index lists, then the
/// directory of the latest 2.79 builds; `None` where a link has no target.
pub open spec fn version_dirs_of(links: Seq<Option<Seq<char>>>) -> Option<Seq<Seq<char>>> {
    match kept_links(links, true) {
        Some(v) => Some(v.push("Blender2.79/latest/"@)),
        None => None,
    }
}

/// The links that are version directories (`dirs`) or archives, in order,
/// or `None` where a link has no target.
fn keep_links(links: &Vec<Option<String>>, dirs: bool) -> (r: Option<Vec<String>>)
    ensures
        match r {
            Some(v) => kept_links(option_texts(links@), dirs) == Some(texts(v@)),
            None => kept_links(option_texts(links@), dirs) is None,
        },
{
    let ghost all = option_texts(links@);
    let mut kept: Vec<String> = Vec::new();
    let mut i: usize = 0;
    assert(all.take(0) =~= Seq::<Option<Seq<char>>>::empty());
    assert(texts(kept@) =~= Seq::<Seq<char>>::empty());
    while i < links.len()
        invariant
            0 <= i <= links.len(),
            all == option_texts(links@),
            kept_links(all.take(i as int), dirs) == Some(texts(kept@)),
        decreases links.len() - i,
    {
        assert(all.take(i + 1).drop_last() =~= all.take(i as int));
        match &links[i] {
            Some(h) => {
                proof {
                    reveal_strlit("/");
                }
                let keep = if dirs {
                    contains(h.as_str(), "Blender") && ends_with(h.as_str(), "/") && !contains(
                        h.as_str(),
                        "Benchmark",
                    )
                } else {
                    !ends_with(h.as_str(), "/") && !contains(h.as_str(), "?")
                };
                if keep {
                    let ghost before = texts(kept@);
                    kept.push(h.clone());
                    assert(texts(kept@) =~= before.push(h@));
                }
            },
            None => {
                proof {
                    lemma_kept_links_fail(all, i as int + 1, dirs);
                    assert(all.take(links.len() as int) =~= all);
                }
                return None;
            },
        }
        i = i + 1;
    }
    assert(all.take(links.len() as int) =~= all);
    Some(kept)
}

/// Once a link without a target is met, no links are kept.
proof fn lemma_kept_links_fail(links: Seq<Option<Seq<char>>>, i: int, dirs: bool)
    requires
        0 < i <= links.len(),
        links[i - 1] is None,
    ensures
        kept_links(links, dirs) is None,
{
    assert(links.take(i).last() == links[i - 1]);
    lemma_kept_links_prefix(links, i, dirs);
}

/// A failure among the first `i` links is a failure of all.
proof fn lemma_kept_links_prefix(links: Seq<Option<Seq<char>>>, i: int, dirs: bool)
    requires
        0 <= i <= links.len(),
        kept_links(links.take(i), dirs) is None,
    ensures
        kept_links(links, dirs) is None,
    decreases links.len() - i,
{
    if i < links.len() {
        assert(links.take(i + 1).drop_last() =~= links.take(i));
        lemma_kept_links_prefix(links, i + 1, dirs);
    } else {
        assert(links.take(i) =~= links);
    }
}

/// The directories of the versions that the mirror's index page lists,
/// then the directory of the latest 2.79 builds; `None` where a link of the
/// page has no target.
pub fn version_dirs(index_html: &str) -> (r: Option<Vec<String>>)
    ensures
        match r {
            Some(v) => version_dirs_of(links_of(index_html@)) == Some(texts(v@)),
            None => version_dirs_of(links_of(index_html@)) is None,
        },
{
    let links = page_links(index_html);
    match keep_links(&links, true) {
        Some(mut dirs) => {
            let ghost before = texts(dirs@);
            dirs.push(String::from_str("Blender2.79/latest/"));
            assert(texts(dirs@) =~= before.push("Blender2.79/latest/"@));
            Some(dirs)
        },
        None => None,
    }
}

/// The regular expression of the dates in a version's listing: day,
/// month, year, hours and minutes.
pub open spec fn archive_date_pattern() -> Seq<char> {
    "\\d{2}-\\w{3}-\\d{4}\\s\\d{2}:\\d{2}"@
}

/// The dates of the archives in a version's listing, in order: from each
/// text with at most two `-`, its first match of the date pattern, with
/// the seconds appended.
pub open spec fn archive_dates_of(children: Seq<Option<Seq<char>>>) -> Seq<Seq<char>>
    decreases children.len(),
{
    if children.len() == 0 {
        Seq::empty()
    } else {
        let before = archive_dates_of(children.drop_last());
        match children.last() {
            Some(t) => if count_char(t, '-') > 2 {
                before
            } else {
                match regex_found(archive_date_pattern(), t) {
                    Some(m) => before.push(m + ":00"@),
                    None => before,
                }
            },
            None => before,
        }
    }
}

/// The dates of the archives in a version's listing.
fn archive_dates(children: &Vec<Option<String>>) -> (r: Vec<String>)
    ensures
        texts(r@) == archive_dates_of(option_texts(children@)),
{
    let ghost all = option_texts(children@);
    let mut dates: Vec<String> = Vec::new();
    let mut i: usize = 0;
    assert(all.take(0) =~= Seq::<Option<Seq<char>>>::empty());
    assert(texts(dates@) =~= Seq::<Seq<char>>::empty());
    while i < children.len()
        invariant
            0 <= i <= children.len(),
            all == option_texts(children@),
            archive_dates_of(all.take(i as int)) == texts(dates@),
        decreases children.len() - i,
    {
        assert(all.take(i + 1).drop_last() =~= all.take(i as int));
        match &children[i] {
            Some(t) => {
                if count_of(t.as_str(), '-') <= 2 {
                    match find_match("\\d{2}-\\w{3}-\\d{4}\\s\\d{2}:\\d{2}", t.as_str()) {
                        Some(m) => {
                            let ghost before = texts(dates@);
                            dates.push(m.concat(":00"));
                            assert(texts(dates@) =~= before.push(m@ + ":00"@));
                        },
                        None => {},
                    }
                }
            },
            None => {},
        }
        i = i + 1;
    }
    assert(all.take(children.len() as int) =~= all);
    dates
}

/// The mark of the operating system in the names of its archives.
pub open spec fn os_mark(os: Os) -> Seq<char> {
    match os {
        Os::Linux => "linux"@,
        Os::Windows => "win"@,
        Os::MacOs => "OS"@,
    }
}

/// The mark of the operating system in the names of its archives.
pub fn os_mark_of(os: Os) -> (r: &'static str)
    ensures
        r@ == os_mark(os),
{
    match os {
        Os::Linux => "linux",
        Os::Windows => "win",
        Os::MacOs => "OS",
    }
}

/// An archive of a package for the operating system marked `mark`: not an
/// installer, checksum, text, source, demo or document, and not for an
/// architecture or system that is not supported.
pub open spec fn wanted_archive(b: Seq<char>, mark: Seq<char>) -> bool {
    &&& has_infix(b, mark)
    &&& !has_infix(b, ".msi"@)
    &&& !has_infix(b, ".md"@)
    &&& !has_infix(b, ".sha256"@)
    &&& !has_infix(b, ".msix"@)
    &&& !has_infix(b, ".exe"@)
    &&& !has_infix(b, ".txt"@)
    &&& !has_infix(b, ".rpm"@)
    &&& !has_infix(b, ".deb"@)
    &&& !has_infix(b, ".tbz"@)
    &&& !has_infix(b, ".7z"@)
    &&& !has_infix(b, "md5sums"@)
    &&& !has_infix(b, "source"@)
    &&& !has_infix(b, "demo"@)
    &&& !has_infix(b, "script"@)
    &&& !has_infix(b, "manual"@)
    &&& !has_infix(b, "files"@)
    &&& !has_infix(b, "beos"@)
    &&& !has_infix(b, "static"@)
    &&& !has_infix(b, "irix"@)
    &&& !has_infix(b, "solaris"@)
    &&& !has_infix(b, "powerpc"@)
    &&& !has_infix(b, "-ppc"@)
    &&& !has_infix(b, "_ppc"@)
    &&& !has_infix(b, "freebsd"@)
    &&& !has_infix(b, "FreeBSD"@)
}

/// Whether the archive is one of a package for the operating system marked `mark`.
pub fn is_wanted_archive(b: &str, mark: &str) -> (r: bool)
    ensures
        r == wanted_archive(b@, mark@),
{
    contains(b, mark) && !contains(b, ".msi") && !contains(b, ".md") && !contains(b, ".sha256") && !contains(b, ".msix") && !contains(b, ".exe") && !contains(b, ".txt") && !contains(b, ".rpm") && !contains(b, ".deb") && !contains(b, ".tbz") && !contains(b, ".7z") && !contains(b, "md5sums") && !contains(b, "source") && !contains(b, "demo") && !contains(b, "script") && !contains(b, "manual") && !contains(b, "files") && !contains(b, "beos") && !contains(b, "static") && !contains(b, "irix") && !contains(b, "solaris") && !contains(b, "powerpc") && !contains(b, "-ppc") && !contains(b, "_ppc") && !contains(b, "freebsd") && !contains(b, "FreeBSD")
}

/// The version of an archive of the version directory named `v` (the
/// directory's name without `Blender` and `/`): the directory's version,
/// told apart by the archive's name for early releases; for most it is the
/// second `-`-separated part of the archive's name.
pub open spec fn archive_version_of(v: Seq<char>, b: Seq<char>) -> Result<Seq<char>, ArchiveError> {
    if v == "1.0"@ || v == "1.60"@ || v == "1.73"@ {
        Ok(v)
    } else if v == "1.80"@ {
        Ok(if has_infix(b, "alpha"@) { "1.80alpha"@ } else { "1.80a"@ })
    } else if v == "2.04"@ {
        Ok(if has_infix(b, "alpha"@) { "2.04alpha"@ } else { "2.04"@ })
    } else if v == "2.39"@ {
        Ok(if has_infix(b, "alpha"@) { "2.40alpha1"@ } else { "2.40alpha2"@ })
    } else if v == "2.50alpha"@ {
        Ok(
            if has_infix(b, "alpha0"@) {
                "2.50alpha0"@
            } else if has_infix(b, "alpha1"@) {
                "2.50alpha1"@
            } else {
                "2.50alpha2"@
            },
        )
    } else if v == "2.53beta"@ || v == "2.54beta"@ || v == "2.55beta"@ || v == "2.56beta"@ || v
        == "2.56abeta"@ || v == "2.79latest"@ {
        Ok(v)
    } else {
        let parts = terminated_pieces(b, "-"@);
        if parts.len() < 2 {
            Err(ArchiveError::NoVersion)
        } else if !readable_version(parts[1]) {
            Err(ArchiveError::BadVersion)
        } else {
            Ok(parts[1])
        }
    }
}

/// One of two texts, as an owned text.
fn pick(c: bool, yes: &str, no: &str) -> (r: String)
    ensures
        r@ == (if c { yes@ } else { no@ }),
{
    if c {
        String::from_str(yes)
    } else {
        String::from_str(no)
    }
}

/// The version of an archive of the version directory named `v`.
pub fn archive_version(v: &str, b: &str) -> (r: Result<String, ArchiveError>)
    ensures
        match r {
            Ok(s) => archive_version_of(v@, b@) == Ok::<Seq<char>, ArchiveError>(s@),
            Err(e) => archive_version_of(v@, b@) == Err::<Seq<char>, ArchiveError>(e),
        },
{
    if same_text(v, "1.0") || same_text(v, "1.60") || same_text(v, "1.73") {
        Ok(String::from_str(v))
    } else if same_text(v, "1.80") {
        Ok(pick(contains(b, "alpha"), "1.80alpha", "1.80a"))
    } else if same_text(v, "2.04") {
        Ok(pick(contains(b, "alpha"), "2.04alpha", "2.04"))
    } else if same_text(v, "2.39") {
        Ok(pick(contains(b, "alpha"), "2.40alpha1", "2.40alpha2"))
    } else if same_text(v, "2.50alpha") {
        if contains(b, "alpha0") {
            Ok(String::from_str("2.50alpha0"))
        } else {
            Ok(pick(contains(b, "alpha1"), "2.50alpha1", "2.50alpha2"))
        }
    } else if same_text(v, "2.53beta") || same_text(v, "2.54beta") || same_text(v, "2.55beta")
        || same_text(v, "2.56beta") || same_text(v, "2.56abeta") || same_text(v, "2.79latest") {
        Ok(String::from_str(v))
    } else {
        proof {
            reveal_strlit("-");
        }
        let parts = split_terminator(b, "-");
        if parts.len() < 2 {
            Err(ArchiveError::NoVersion)
        } else {
            assert(texts(parts@)[1] == parts@[1]@);
            if !is_version(parts[1].as_str()) {
                Err(ArchiveError::BadVersion)
            } else {
                Ok(parts[1].clone())
            }
        }
    }
}

/// The format of the mirror's dates.
pub open spec fn archive_date_format() -> Seq<char> {
    "%d-%b-%Y %T"@
}

/// The package of the archive `b` of the version directory named `v`,
/// dated `d`, found under the address `base`: none for an archive that is
/// not wanted; otherwise named by its stem, with the directory's version.
pub open spec fn archive_package(v: Seq<char>, b: Seq<char>, d: Seq<char>, base: Seq<char>, os: Os) -> Result<Option<PackageV>, ArchiveError> {
    if !wanted_archive(b, os_mark(os)) {
        Ok(None)
    } else {
        match archive_version_of(v, b) {
            Err(e) => Err(e),
            Ok(version) => if package_stem(b) is None {
                Err(ArchiveError::NoName)
            } else {
                match date_time_parsed(d, archive_date_format()) {
                    None => Err(ArchiveError::BadDate),
                    Some(date) => Ok(
                        Some(
                            PackageV {
                                version,
                                name: package_stem(b)->0,
                                build: BuildV::StableArchive,
                                date,
                                commit: Seq::empty(),
                                url: base + b,
                                os,
                                changelog: Seq::empty(),
                                state: PackageStateV::Fetched,
                                status: PackageStatus::Old,
                                index: 0,
                                build_type: BuildTypeV::Unset,
                            },
                        ),
                    ),
                }
            },
        }
    }
}

/// The packages of the archives, taken from the last: the `j`-th last
/// archive goes with the `j`-th last date; or the first failure.
pub open spec fn collected(builds: Seq<Seq<char>>, dates: Seq<Seq<char>>, v: Seq<char>, base: Seq<char>, os: Os, j: nat) -> Result<Seq<PackageV>, ArchiveError>
    decreases j,
{
    if j == 0 {
        Ok(Seq::empty())
    } else {
        match collected(builds, dates, v, base, os, (j - 1) as nat) {
            Err(e) => Err(e),
            Ok(ps) => if dates.len() < j {
                Err(ArchiveError::MissingDate)
            } else {
                match archive_package(v, builds[builds.len() - j], dates[dates.len() - j], base, os) {
                    Err(e) => Err(e),
                    Ok(None) => Ok(ps),
                    Ok(Some(p)) => Ok(ps.push(p)),
                }
            },
        }
    }
}

/// Once the packages fail, they fail for every later count.
proof fn lemma_collected_fails(builds: Seq<Seq<char>>, dates: Seq<Seq<char>>, v: Seq<char>, base: Seq<char>, os: Os, j: nat, k: nat)
    requires
        j <= k,
        collected(builds, dates, v, base, os, j) is Err,
    ensures
        collected(builds, dates, v, base, os, k) == collected(builds, dates, v, base, os, j),
    decreases k - j,
{
    if j < k {
        lemma_collected_fails(builds, dates, v, base, os, j, (k - 1) as nat);
    }
}

/// The packages of the version directory `dir` that its listing `html`
/// shows for the operating system, taken from the last archive, or why the
/// listing cannot be read.
pub open spec fn version_packages_of(dir: Seq<char>, html: Seq<char>, os: Os) -> Result<Seq<PackageV>, ArchiveError> {
    if !has_prefix(dir, "Blender"@) {
        Err(ArchiveError::NotAVersionDir)
    } else {
        match pre_texts_of(html) {
            None => Err(ArchiveError::NoDateList),
            Some(children) => match kept_links(links_of(html), false) {
                None => Err(ArchiveError::NoLinkTarget),
                Some(builds) => collected(
                    builds,
                    archive_dates_of(children),
                    without_char(dir.subrange(7, dir.len() as int), '/'),
                    release_url_spec() + dir,
                    os,
                    builds.len(),
                ),
            },
        }
    }
}

/// The package of the archive `b` of the version directory named `v`,
/// dated `d`, found under the address `base`, if it is wanted.
fn archive_package_from(v: &str, b: &str, d: &str, base: &str, os: Os) -> (r: Result<Option<Package>, ArchiveError>)
    ensures
        match r {
            Ok(Some(p)) => archive_package(v@, b@, d@, base@, os) == Ok::<Option<PackageV>, ArchiveError>(Some(p@)),
            Ok(None) => archive_package(v@, b@, d@, base@, os) == Ok::<Option<PackageV>, ArchiveError>(None),
            Err(e) => archive_package(v@, b@, d@, base@, os) == Err::<Option<PackageV>, ArchiveError>(e),
        },
{
    if !is_wanted_archive(b, os_mark_of(os)) {
        return Ok(None);
    }
    let version = match archive_version(v, b) {
        Ok(version) => version,
        Err(e) => return Err(e),
    };
    let name = match try_get_file_stem(b) {
        Some(name) => name,
        None => return Err(ArchiveError::NoName),
    };
    let date = match parse_date_time(d, "%d-%b-%Y %T") {
        Some(date) => date,
        None => return Err(ArchiveError::BadDate),
    };
    let package = Package {
        version,
        name,
        build: crate::package::Build::StableArchive,
        date,
        commit: String::new(),
        url: String::from_str(base).concat(b),
        os,
        changelog: Vec::new(),
        state: crate::package::PackageState::Fetched,
        status: PackageStatus::Old,
        index: 0,
        build_type: crate::package::BuildType::Unset,
    };
    proof {
        assert(package.changelog@.map_values(|c: crate::package::Change| c@) =~= Seq::empty());
    }
    Ok(Some(package))
}

/// The packages of the version directory `dir` that its listing `html`
/// shows for the operating system, taken from the last archive, or why the
/// listing cannot be read.
pub fn packages_of_version(dir: &str, html: &str, os: Os) -> (r: Result<Vec<Package>, ArchiveError>)
    ensures
        match r {
            Ok(v) => version_packages_of(dir@, html@, os) == Ok::<Seq<PackageV>, ArchiveError>(crate::releases::views(v@)),
            Err(e) => version_packages_of(dir@, html@, os) == Err::<Seq<PackageV>, ArchiveError>(e),
        },
{
    if !starts_with(dir, "Blender") {
        return Err(ArchiveError::NotAVersionDir);
    }
    proof {
        reveal_strlit("Blender");
    }
    let n_dir = dir.unicode_len();
    let rest = slice(dir, 7, n_dir);
    let v = remove_char(rest.as_str(), '/');
    let children = match pre_texts(html) {
        Some(children) => children,
        None => return Err(ArchiveError::NoDateList),
    };
    let dates = archive_dates(&children);
    let links = page_links(html);
    let builds = match keep_links(&links, false) {
        Some(builds) => builds,
        None => return Err(ArchiveError::NoLinkTarget),
    };
    let base = String::from_str(release_url()).concat(dir);
    let ghost bs = texts(builds@);
    let ghost ds = texts(dates@);
    let n = builds.len();
    let m = dates.len();
    let mut packages: Vec<Package> = Vec::new();
    let mut j: usize = 0;
    assert(crate::releases::views(packages@) =~= Seq::<PackageV>::empty());
    assert(version_packages_of(dir@, html@, os) == collected(bs, ds, v@, base@, os, n as nat));
    while j < n
        invariant
            version_packages_of(dir@, html@, os) == collected(bs, ds, v@, base@, os, n as nat),
            0 <= j <= n,
            n == builds@.len(),
            m == dates@.len(),
            bs == texts(builds@),
            ds == texts(dates@),
            collected(bs, ds, v@, base@, os, j as nat) == Ok::<Seq<PackageV>, ArchiveError>(crate::releases::views(packages@)),
        decreases n - j,
    {
        if m < j + 1 {
            proof {
                lemma_collected_fails(bs, ds, v@, base@, os, (j + 1) as nat, n as nat);
            }
            return Err(ArchiveError::MissingDate);
        }
        let b = &builds[n - 1 - j];
        let d = &dates[m - 1 - j];
        assert(bs[bs.len() - (j + 1)] == b@);
        assert(ds[ds.len() - (j + 1)] == d@);
        match archive_package_from(v.as_str(), b.as_str(), d.as_str(), base.as_str(), os) {
            Ok(Some(p)) => {
                let ghost before = crate::releases::views(packages@);
                packages.push(p);
                assert(crate::releases::views(packages@) =~= before.push(packages@.last()@));
            },
            Ok(None) => {},
            Err(e) => {
                proof {
                    lemma_collected_fails(bs, ds, v@, base@, os, (j + 1) as nat, n as nat);
                }
                return Err(e);
            },
        }
        j = j + 1;
    }
    Ok(packages)
}

/// Every package is an archived stable release.
pub open spec fn all_archived(ps: Seq<PackageV>) -> bool {
    forall|k: int| 0 <= k < ps.len() ==> (#[trigger] ps[k]).build == BuildV::StableArchive
}

proof fn lemma_collected_archived(builds: Seq<Seq<char>>, dates: Seq<Seq<char>>, v: Seq<char>, base: Seq<char>, os: Os, j: nat)
    ensures
        collected(builds, dates, v, base, os, j) matches Ok(ps) ==> all_archived(ps),
    decreases j,
{
    if j > 0 {
        lemma_collected_archived(builds, dates, v, base, os, (j - 1) as nat);
        match collected(builds, dates, v, base, os, (j - 1) as nat) {
            Ok(ps) => {
                assert forall|x: PackageV| all_archived(ps) && x.build == BuildV::StableArchive implies all_archived(ps.push(x)) by {
                    assert forall|k: int| 0 <= k < ps.push(x).len() implies (#[trigger] ps.push(x)[k]).build == BuildV::StableArchive by {
                        if k < ps.len() {
                            assert(ps.push(x)[k] == ps[k]);
                        }
                    }
                }
            },
            Err(_) => {},
        }
    }
}

proof fn lemma_version_packages_archived(dir: Seq<char>, html: Seq<char>, os: Os)
    ensures
        version_packages_of(dir, html, os) matches Ok(ps) ==> all_archived(ps),
{
    if has_prefix(dir, "Blender"@) {
        match pre_texts_of(html) {
            Some(children) => match kept_links(links_of(html), false) {
                Some(builds) => lemma_collected_archived(
                    builds,
                    archive_dates_of(children),
                    without_char(dir.subrange(7, dir.len() as int), '/'),
                    release_url_spec() + dir,
                    os,
                    builds.len(),
                ),
                None => {},
            },
            None => {},
        }
    }
}

/// The packages of all the version directories, each given by its name
/// and its listing: those of each directory in turn, or the first
/// directory's error.
pub open spec fn archive_all(pages: Seq<(String, String)>, os: Os) -> Result<Seq<PackageV>, ArchiveError>
    decreases pages.len(),
{
    if pages.len() == 0 {
        Ok(Seq::empty())
    } else {
        match archive_all(pages.drop_last(), os) {
            Err(e) => Err(e),
            Ok(prev) => match version_packages_of(pages.last().0@, pages.last().1@, os) {
                Err(e) => Err(e),
                Ok(ps) => Ok(prev + ps),
            },
        }
    }
}

/// An error among the first directories is the error of all of them.
proof fn lemma_archive_all_err(pages: Seq<(String, String)>, j: int, os: Os)
    requires
        0 <= j <= pages.len(),
        archive_all(pages.take(j), os) is Err,
    ensures
        archive_all(pages, os) == archive_all(pages.take(j), os),
    decreases pages.len(),
{
    if j == pages.len() {
        assert(pages.take(j) =~= pages);
    } else {
        assert(pages.drop_last().take(j) =~= pages.take(j));
        lemma_archive_all_err(pages.drop_last(), j, os);
    }
}

/// The stable archive: the packages of every version directory, each given
/// by its name and its listing (see `packages_of_version`), stably sorted;
/// or the error of the first directory that has one.
pub fn stable_archive_list(pages: &Vec<(String, String)>, os: Os) -> (r: Result<Vec<Package>, ArchiveError>)
    ensures
        match r {
            Ok(v) => archive_all(pages@, os) matches Ok(all) && stably_rearranged(all, views(v@)) && sorted(v@),
            Err(e) => archive_all(pages@, os) == Err::<Seq<PackageV>, ArchiveError>(e),
        },
{
    let mut all: Vec<Package> = Vec::new();
    let mut i: usize = 0;
    assert(pages@.take(0) =~= Seq::<(String, String)>::empty());
    assert(views(all@) =~= Seq::<PackageV>::empty());
    while i < pages.len()
        invariant
            0 <= i <= pages.len(),
            archive_all(pages@.take(i as int), os) == Ok::<Seq<PackageV>, ArchiveError>(views(all@)),
            all_archived(views(all@)),
        decreases pages.len() - i,
    {
        let page = &pages[i];
        assert(pages@.take(i + 1).drop_last() =~= pages@.take(i as int));
        assert(pages@.take(i + 1).last() == pages@[i as int]);
        match packages_of_version(page.0.as_str(), page.1.as_str(), os) {
            Ok(ps) => {
                proof {
                    lemma_version_packages_archived(page.0@, page.1@, os);
                }
                let ghost before = views(all@);
                let ghost added = views(ps@);
                let mut ps = ps;
                all.append(&mut ps);
                assert(views(all@) =~= before + added);
                assert forall|k: int| 0 <= k < views(all@).len() implies (#[trigger] views(all@)[k]).build == BuildV::StableArchive by {
                    if k < before.len() {
                        assert(views(all@)[k] == before[k]);
                    } else {
                        assert(views(all@)[k] == added[k - before.len()]);
                    }
                }
            },
            Err(e) => {
                proof {
                    lemma_archive_all_err(pages@, i + 1, os);
                }
                return Err(e);
            },
        }
        i = i + 1;
    }
    assert(pages@.take(i as int) =~= pages@);
    assert(one_family(all@)) by {
        assert forall|k: int| 0 <= k < all@.len() implies !crate::package::is_builder_build(#[trigger] all@[k].build@) by {
            assert(views(all@)[k] == all@[k]@);
        }
    }
    let v = sort_packages(all);
    Ok(v)
}

} // verus!
