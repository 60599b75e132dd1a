//! Packages listed by the build server: daily, experimental and patch
//! builds, read from the server's download pages.
use crate::dates::{date_time_parsed, parse_date_time};
use crate::helpers::{get_file_stem, package_stem, try_get_file_stem};
use crate::package::{
    Build, BuildTypeV, BuildV, Os, Package, PackageState, PackageStateV, PackageStatus, PackageV,
};
use crate::releases::views;
use crate::sorting::{one_family, sort_packages, sorted, stably_rearranged};
use crate::text::{
    ends_with, has_suffix, nth_word, nth_word_from, split_terminator, terminated_pieces, texts,
};
use crate::version::{is_version, readable_version};
use select::document::Document;
use select::predicate::{And, Class, Name};
use vstd::prelude::*;

verus! {

/// The lists of the build server.
#[derive(Clone, Copy, Debug, PartialEq, Eq, Structural)]
pub enum BuilderBuild {
    DailyLatest,
    DailyArchive,
    ExperimentalLatest,
    ExperimentalArchive,
    PatchLatest,
    PatchArchive,
}

/// The build of a package of the list, with its variant's name.
pub open spec fn build_of(list: BuilderBuild, name: Seq<char>) -> BuildV {
    match list {
        BuilderBuild::DailyLatest => BuildV::DailyLatest(name),
        BuilderBuild::DailyArchive => BuildV::DailyArchive(name),
        BuilderBuild::ExperimentalLatest => BuildV::ExperimentalLatest(name),
        BuilderBuild::ExperimentalArchive => BuildV::ExperimentalArchive(name),
        BuilderBuild::PatchLatest => BuildV::PatchLatest(name),
        BuilderBuild::PatchArchive => BuildV::PatchArchive(name),
    }
}

/// The class of the server's list of builds for the operating system.
pub open spec fn platform_class(os: Os) -> Seq<char> {
    match os {
        Os::Linux => "platform-linux"@,
        Os::Windows => "platform-windows"@,
        Os::MacOs => "platform-darwin"@,
    }
}

/// The class of the server's list of builds for the operating system.
pub fn platform(os: Os) -> (r: &'static str)
    ensures
        r@ == platform_class(os),
{
    match os {
        Os::Linux => "platform-linux",
        Os::Windows => "platform-windows",
        Os::MacOs => "platform-darwin",
    }
}

impl BuilderBuild {
    /// The address of the list's download page.
    pub fn url(&self) -> (r: &'static str)
        ensures
            *self == BuilderBuild::DailyLatest ==> r@ == "https://builder.blender.org/download/daily/"@,
            *self == BuilderBuild::DailyArchive ==> r@
                == "https://builder.blender.org/download/daily/archive/"@,
            *self == BuilderBuild::ExperimentalLatest ==> r@
                == "https://builder.blender.org/download/experimental/"@,
            *self == BuilderBuild::ExperimentalArchive ==> r@
                == "https://builder.blender.org/download/experimental/archive/"@,
            *self == BuilderBuild::PatchLatest ==> r@ == "https://builder.blender.org/download/patch/"@,
            *self == BuilderBuild::PatchArchive ==> r@
                == "https://builder.blender.org/download/patch/archive/"@,
    {
        match self {
            BuilderBuild::DailyLatest => "https://builder.blender.org/download/daily/",
            BuilderBuild::DailyArchive => "https://builder.blender.org/download/daily/archive/",
            BuilderBuild::ExperimentalLatest => "https://builder.blender.org/download/experimental/",
            BuilderBuild::ExperimentalArchive => "https://builder.blender.org/download/experimental/archive/",
            BuilderBuild::PatchLatest => "https://builder.blender.org/download/patch/",
            BuilderBuild::PatchArchive => "https://builder.blender.org/download/patch/archive/",
        }
    }

    /// The build of a package of the list, with its variant's name.
    pub fn build(&self, name: String) -> (r: Build)
        ensures
            r@ == build_of(*self, name@),
    {
        match self {
            BuilderBuild::DailyLatest => Build::DailyLatest(name),
            BuilderBuild::DailyArchive => Build::DailyArchive(name),
            BuilderBuild::ExperimentalLatest => Build::ExperimentalLatest(name),
            BuilderBuild::ExperimentalArchive => Build::ExperimentalArchive(name),
            BuilderBuild::PatchLatest => Build::PatchLatest(name),
            BuilderBuild::PatchArchive => Build::PatchArchive(name),
        }
    }
}

/// What a page shows of one build: the address of its archive, and,
/// where the entry has them, its variant's name, its title (the product,
/// then the version) and its small print (the date, the branch, then the
/// commit, split by ` - `).
pub struct BuildNode {
    pub href: String,
    pub build_var: Option<String>,
    pub name: Option<String>,
    pub small: Option<String>,
}

/// The text that an optional text holds.
pub open spec fn opt_text(o: Option<String>) -> Option<Seq<char>> {
    match o {
        Some(t) => Some(t@),
        None => None,
    }
}

impl View for BuildNode {
    type V = (Seq<char>, Option<Seq<char>>, Option<Seq<char>>, Option<Seq<char>>);

    open spec fn view(&self) -> (Seq<char>, Option<Seq<char>>, Option<Seq<char>>, Option<Seq<char>>) {
        (self.href@, opt_text(self.build_var), opt_text(self.name), opt_text(self.small))
    }
}

/// What `select` finds in the page: the entries of class `os` of the first
/// list of classes `builds-list` and the platform's class, each with the
/// `href` of its first link and, where they are there, the texts of its
/// first elements of classes `build-var` and `name` and of its first
/// `small` element. `None` where the list, or an entry's link, is missing.
pub uninterp spec fn builds_list_of(html: Seq<char>, platform: Seq<char>) -> Option<
    Seq<(Seq<char>, Option<Seq<char>>, Option<Seq<char>>, Option<Seq<char>>)>,
>;

/// The entries of the build list of the page for the platform, read by
/// `select` (`Document::from` and `find` with the classes and names that
/// `builds_list_of` describes). Claimed: the result is `builds_list_of`
/// the page and the platform.
#[verifier::external_body]
fn build_nodes(html: &str, platform: &str) -> (r: Option<Vec<BuildNode>>)
    ensures
        match r {
            Some(v) => builds_list_of(html@, platform@) == Some(v@.map_values(|n: BuildNode| n@)),
            None => builds_list_of(html@, platform@) is None,
        },
{
    let document = Document::from(html);
    let list = document.find(And(Class("builds-list"), Class(platform))).next()?;
    let mut nodes = Vec::new();
    for node in list.find(Class("os")) {
        nodes.push(BuildNode {
            href: node.find(Name("a")).next()?.attr("href")?.to_string(),
            build_var: node.find(Class("build-var")).next().map(|n| n.text()),
            name: node.find(Class("name")).next().map(|n| n.text()),
            small: node.find(Name("small")).next().map(|n| n.text()),
        });
    }
    Some(nodes)
}

/// Why a page could not be read: the parts it lacks.
#[derive(Clone, Copy, Debug, PartialEq, Eq, Structural)]
pub enum NodeError {
    /// The page has no list of builds for the platform, or an entry lacks its link.
    NoBuildsList,
    /// An entry that is not a checksum file lacks its variant's name, its
    /// title or its small print.
    NoPart,
    /// The archive's file name has no stem to name the package by.
    NoName,
    /// The title has no second word.
    NoVersion,
    /// The title's second word is not a version.
    BadVersion,
    /// The small print is empty.
    NoDate,
    /// The small print's date cannot be read.
    BadDate,
    /// The small print has no third part.
    NoCommit,
}

/// The format of the dates of the build server, with the year appended.
pub open spec fn builder_date_format() -> Seq<char> {
    "%B %d, %T-%Y"@
}

/// The package that an entry of the list stands for: none for a checksum
/// file, whatever else it lacks; otherwise named by its archive's stem,
/// versioned by the second word of its title, dated by the first part of
/// its small print read in the given year, with the third part as its commit.
pub open spec fn node_package(list: BuilderBuild, node: (Seq<char>, Option<Seq<char>>, Option<Seq<char>>, Option<Seq<char>>), os: Os, year: Seq<char>) -> Result<Option<PackageV>, NodeError> {
    let (href, build_var, title, small) = node;
    if has_suffix(href, ".sha256"@) {
        Ok(None)
    } else if package_stem(href) is None {
        Err(NodeError::NoName)
    } else if build_var is None || title is None || small is None {
        Err(NodeError::NoPart)
    } else {
        entry_package(list, href, build_var->0, title->0, small->0, os, year)
    }
}

/// The package of an entry that has all its parts.
pub open spec fn entry_package(list: BuilderBuild, href: Seq<char>, build_var: Seq<char>, title: Seq<char>, small: Seq<char>, os: Os, year: Seq<char>) -> Result<Option<PackageV>, NodeError> {
    if nth_word_from(title, 0, 1) is None {
        Err(NodeError::NoVersion)
    } else if !readable_version(nth_word_from(title, 0, 1)->0) {
        Err(NodeError::BadVersion)
    } else {
        let parts = terminated_pieces(small, " - "@);
        if parts.len() == 0 {
            Err(NodeError::NoDate)
        } else if date_time_parsed(parts[0] + "-"@ + year, builder_date_format()) is None {
            Err(NodeError::BadDate)
        } else if parts.len() < 3 {
            Err(NodeError::NoCommit)
        } else {
            Ok(
                Some(
                    PackageV {
                        version: nth_word_from(title, 0, 1)->0,
                        name: package_stem(href)->0,
                        build: build_of(list, build_var),
                        date: date_time_parsed(parts[0] + "-"@ + year, builder_date_format())->0,
                        commit: parts[2],
                        url: href,
                        os,
                        changelog: Seq::empty(),
                        state: PackageStateV::Fetched,
                        status: PackageStatus::Old,
                        index: 0,
                        build_type: BuildTypeV::Unset,
                    },
                ),
            )
        }
    }
}

impl BuilderBuild {
    /// The package that an entry of the list stands for, `Ok(None)` for a
    /// checksum file, or the part that the entry lacks. `year` is the
    /// current year as decimal text, which the server's dates leave out.
    pub fn package_from_node(&self, node: &BuildNode, os: Os, year: &str) -> (r: Result<
        Option<Package>,
        NodeError,
    >)
        ensures
            match r {
                Ok(Some(p)) => node_package(*self, node@, os, year@) == Ok::<Option<PackageV>, NodeError>(Some(p@)),
                Ok(None) => node_package(*self, node@, os, year@) == Ok::<Option<PackageV>, NodeError>(None),
                Err(e) => node_package(*self, node@, os, year@) == Err::<Option<PackageV>, NodeError>(e),
            },
    {
        let href = node.href.as_str();
        if ends_with(href, ".sha256") {
            return Ok(None);
        }
        let name = match try_get_file_stem(href) {
            Some(name) => name,
            None => return Err(NodeError::NoName),
        };
        let (build_var, title, small) = match (&node.build_var, &node.name, &node.small) {
            (Some(b), Some(t), Some(s)) => (b, t, s),
            _ => return Err(NodeError::NoPart),
        };
        let version = match nth_word(title.as_str(), 1) {
            Some(version) => version,
            None => return Err(NodeError::NoVersion),
        };
        if !is_version(version.as_str()) {
            return Err(NodeError::BadVersion);
        }
        proof {
            reveal_strlit(" - ");
        }
        let parts = split_terminator(small.as_str(), " - ");
        if parts.len() == 0 {
            return Err(NodeError::NoDate);
        }
        let text = parts[0].clone().concat("-").concat(year);
        let date = match parse_date_time(text.as_str(), "%B %d, %T-%Y") {
            Some(date) => date,
            None => return Err(NodeError::BadDate),
        };
        if parts.len() < 3 {
            return Err(NodeError::NoCommit);
        }
        let build = self.build(build_var.clone());
        let package = Package {
            version,
            name,
            build,
            date,
            commit: parts[2].clone(),
            url: node.href.clone(),
            os,
            changelog: Vec::new(),
            state: PackageState::Fetched,
            status: PackageStatus::Old,
            index: 0,
            build_type: crate::package::BuildType::Unset,
        };
        proof {
            assert(texts(parts@)[0] == parts@[0]@);
            assert(texts(parts@)[2] == parts@[2]@);
            assert(package.changelog@.map_values(|c: crate::package::Change| c@) =~= Seq::empty());
        }
        Ok(Some(package))
    }
}

/// The packages that the entries stand for, in their order, or the part
/// that the first entry to lack one lacks.
pub open spec fn nodes_packages(list: BuilderBuild, nodes: Seq<(Seq<char>, Option<Seq<char>>, Option<Seq<char>>, Option<Seq<char>>)>, os: Os, year: Seq<char>) -> Result<Seq<PackageV>, NodeError>
    decreases nodes.len(),
{
    if nodes.len() == 0 {
        Ok(Seq::empty())
    } else {
        match nodes_packages(list, nodes.drop_last(), os, year) {
            Err(e) => Err(e),
            Ok(ps) => match node_package(list, nodes.last(), os, year) {
                Err(e) => Err(e),
                Ok(None) => Ok(ps),
                Ok(Some(p)) => Ok(ps.push(p)),
            },
        }
    }
}

/// The packages of the list for the operating system that the page shows,
/// in the page's order, or why the page cannot be read.
pub open spec fn page_packages(list: BuilderBuild, html: Seq<char>, os: Os, year: Seq<char>) -> Result<Seq<PackageV>, NodeError> {
    match builds_list_of(html, platform_class(os)) {
        None => Err(NodeError::NoBuildsList),
        Some(nodes) => nodes_packages(list, nodes, os, year),
    }
}

/// The views of a list of packages.
pub open spec fn package_views(v: Seq<Package>) -> Seq<PackageV> {
    v.map_values(|p: Package| p@)
}

impl BuilderBuild {
    /// The packages of the list for the operating system that the download
    /// page shows, sorted, or why the page cannot be read. `year` is the
    /// current year as decimal text.
    pub fn packages_from_page(&self, html: &str, os: Os, year: &str) -> (r: Result<
        Vec<Package>,
        NodeError,
    >)
        ensures
            match r {
                Ok(v) => {
                    &&& page_packages(*self, html@, os, year@) is Ok
                    &&& exists|u: Seq<Package>|
                        {
                            &&& package_views(u) == page_packages(*self, html@, os, year@)->Ok_0
                            &&& v@.to_multiset() == u.to_multiset()
                        }
                    &&& stably_rearranged(page_packages(*self, html@, os, year@)->Ok_0, package_views(v@))
                    &&& sorted(v@)
                },
                Err(e) => page_packages(*self, html@, os, year@) == Err::<Seq<PackageV>, NodeError>(e),
            },
    {
        let nodes = match build_nodes(html, platform(os)) {
            Some(nodes) => nodes,
            None => return Err(NodeError::NoBuildsList),
        };
        let ghost all = nodes@.map_values(|n: BuildNode| n@);
        let mut packages: Vec<Package> = Vec::new();
        let mut i: usize = 0;
        assert(all.take(0) =~= Seq::<(Seq<char>, Option<Seq<char>>, Option<Seq<char>>, Option<Seq<char>>)>::empty());
        assert(package_views(packages@) =~= Seq::<PackageV>::empty());
        while i < nodes.len()
            invariant
                0 <= i <= nodes.len(),
                all == nodes@.map_values(|n: BuildNode| n@),
                builds_list_of(html@, platform_class(os)) == Some(all),
                nodes_packages(*self, all.take(i as int), os, year@) == Ok::<Seq<PackageV>, NodeError>(package_views(packages@)),
                forall|k: int| 0 <= k < packages@.len() ==> is_builder_build_view(#[trigger] packages@[k]@),
            decreases nodes.len() - i,
        {
            let ghost before = packages@;
            assert(all.take(i + 1).drop_last() =~= all.take(i as int));
            assert(all.take(i + 1).last() == nodes@[i as int]@);
            match self.package_from_node(&nodes[i], os, year) {
                Ok(Some(p)) => {
                    packages.push(p);
                    assert(package_views(packages@) =~= package_views(before).push(packages@.last()@));
                },
                Ok(None) => {},
                Err(e) => {
                    proof {
                        assert(nodes_packages(*self, all.take(i + 1), os, year@) == Err::<Seq<PackageV>, NodeError>(e));
                        lemma_error_stays(*self, all, i as int + 1, os, year@);
                    }
                    return Err(e);
                },
            }
            i = i + 1;
        }
        assert(all.take(nodes.len() as int) =~= all);
        let ghost unsorted = packages@;
        proof {
            assert(one_family(unsorted)) by {
                assert forall|a: int, b: int| 0 <= a < unsorted.len() && 0 <= b < unsorted.len() implies
                    crate::package::is_builder_build(#[trigger] unsorted[a].build@)
                    == crate::package::is_builder_build(#[trigger] unsorted[b].build@) by {
                    assert(is_builder_build_view(unsorted[a]@));
                    assert(is_builder_build_view(unsorted[b]@));
                }
            }
        }
        let sorted_packages = sort_packages(packages);
        assert(views(unsorted) =~= package_views(unsorted));
        assert(views(sorted_packages@) =~= package_views(sorted_packages@));
        Ok(sorted_packages)
    }
}

/// The package is a build of the build server.
pub open spec fn is_builder_build_view(p: PackageV) -> bool {
    crate::package::is_builder_build(p.build)
}

/// Once the entries up to `i` fail, so do all of them.
proof fn lemma_error_stays(list: BuilderBuild, nodes: Seq<(Seq<char>, Option<Seq<char>>, Option<Seq<char>>, Option<Seq<char>>)>, i: int, os: Os, year: Seq<char>)
    requires
        0 <= i <= nodes.len(),
        nodes_packages(list, nodes.take(i), os, year) is Err,
    ensures
        nodes_packages(list, nodes, os, year) == nodes_packages(list, nodes.take(i), os, year),
    decreases nodes.len() - i,
{
    if i < nodes.len() {
        assert(nodes.take(i + 1).drop_last() =~= nodes.take(i));
        lemma_error_stays(list, nodes, i + 1, os, year);
    } else {
        assert(nodes.take(i) =~= nodes);
    }
}

} // verus!
