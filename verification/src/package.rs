//! Packages of Blender: what a build is, where it comes from, and how it
//! is shown and grouped.
use crate::dates::{ago_text, date_formatted, format_date, time_ago};
use crate::text::{compare_text, lex_order, lemma_lex_order_antisymmetric};
use crate::version::{compare_versions, reversed, same_version, version_order, versions_equal};
use std::cmp::Ordering;
use vstd::prelude::*;
use vstd::std_specs::cmp::PartialEqSpecImpl;

verus! {

/// Where a package was published. The string is the build's branch or variant name.
pub enum Build {
    DailyLatest(String),
    DailyArchive(String),
    ExperimentalLatest(String),
    ExperimentalArchive(String),
    PatchLatest(String),
    PatchArchive(String),
    StableLatest,
    StableArchive,
    Lts,
}

impl Clone for Build {
    fn clone(&self) -> (r: Build)
        ensures
            r == *self,
    {
        match self {
            Build::DailyLatest(s) => Build::DailyLatest(s.clone()),
            Build::DailyArchive(s) => Build::DailyArchive(s.clone()),
            Build::ExperimentalLatest(s) => Build::ExperimentalLatest(s.clone()),
            Build::ExperimentalArchive(s) => Build::ExperimentalArchive(s.clone()),
            Build::PatchLatest(s) => Build::PatchLatest(s.clone()),
            Build::PatchArchive(s) => Build::PatchArchive(s.clone()),
            Build::StableLatest => Build::StableLatest,
            Build::StableArchive => Build::StableArchive,
            Build::Lts => Build::Lts,
        }
    }
}

/// The mathematical value of a `Build`: the same variants over character sequences.
pub enum BuildV {
    DailyLatest(Seq<char>),
    DailyArchive(Seq<char>),
    ExperimentalLatest(Seq<char>),
    ExperimentalArchive(Seq<char>),
    PatchLatest(Seq<char>),
    PatchArchive(Seq<char>),
    StableLatest,
    StableArchive,
    Lts,
}

impl View for Build {
    type V = BuildV;

    open spec fn view(&self) -> BuildV {
        match self {
            Build::DailyLatest(s) => BuildV::DailyLatest(s@),
            Build::DailyArchive(s) => BuildV::DailyArchive(s@),
            Build::ExperimentalLatest(s) => BuildV::ExperimentalLatest(s@),
            Build::ExperimentalArchive(s) => BuildV::ExperimentalArchive(s@),
            Build::PatchLatest(s) => BuildV::PatchLatest(s@),
            Build::PatchArchive(s) => BuildV::PatchArchive(s@),
            Build::StableLatest => BuildV::StableLatest,
            Build::StableArchive => BuildV::StableArchive,
            Build::Lts => BuildV::Lts,
        }
    }
}

/// Which group of builds a package belongs to, once the archive and latest
/// lists of the same packages are merged; the flags say in which lists it was found.
pub enum BuildType {
    Daily { latest: bool, archive: bool, name: String },
    Experimental { latest: bool, archive: bool, name: String },
    Patch { latest: bool, archive: bool, name: String },
    Stable { latest: bool, archive: bool, lts: bool },
    Unset,
}

impl Clone for BuildType {
    fn clone(&self) -> (r: BuildType)
        ensures
            r == *self,
    {
        match self {
            BuildType::Daily { latest, archive, name } => BuildType::Daily {
                latest: *latest,
                archive: *archive,
                name: name.clone(),
            },
            BuildType::Experimental { latest, archive, name } => BuildType::Experimental {
                latest: *latest,
                archive: *archive,
                name: name.clone(),
            },
            BuildType::Patch { latest, archive, name } => BuildType::Patch {
                latest: *latest,
                archive: *archive,
                name: name.clone(),
            },
            BuildType::Stable { latest, archive, lts } => BuildType::Stable {
                latest: *latest,
                archive: *archive,
                lts: *lts,
            },
            BuildType::Unset => BuildType::Unset,
        }
    }
}

/// The mathematical value of a `BuildType`.
pub enum BuildTypeV {
    Daily { latest: bool, archive: bool, name: Seq<char> },
    Experimental { latest: bool, archive: bool, name: Seq<char> },
    Patch { latest: bool, archive: bool, name: Seq<char> },
    Stable { latest: bool, archive: bool, lts: bool },
    Unset,
}

impl View for BuildType {
    type V = BuildTypeV;

    open spec fn view(&self) -> BuildTypeV {
        match self {
            BuildType::Daily { latest, archive, name } => BuildTypeV::Daily {
                latest: *latest,
                archive: *archive,
                name: name@,
            },
            BuildType::Experimental { latest, archive, name } => BuildTypeV::Experimental {
                latest: *latest,
                archive: *archive,
                name: name@,
            },
            BuildType::Patch { latest, archive, name } => BuildTypeV::Patch {
                latest: *latest,
                archive: *archive,
                name: name@,
            },
            BuildType::Stable { latest, archive, lts } => BuildTypeV::Stable {
                latest: *latest,
                archive: *archive,
                lts: *lts,
            },
            BuildType::Unset => BuildTypeV::Unset,
        }
    }
}

/// The build type after recording that a package was found as `build`:
/// the flag of the matching list is set; a build of another group leaves it
/// unchanged; an empty build type becomes the group of `build` with only that flag.
pub open spec fn build_type_after(bt: BuildTypeV, build: BuildV) -> BuildTypeV {
    match bt {
        BuildTypeV::Daily { latest, archive, name } => match build {
            BuildV::DailyLatest(_) => BuildTypeV::Daily { latest: true, archive, name },
            BuildV::DailyArchive(_) => BuildTypeV::Daily { latest, archive: true, name },
            _ => bt,
        },
        BuildTypeV::Experimental { latest, archive, name } => match build {
            BuildV::ExperimentalLatest(_) => BuildTypeV::Experimental { latest: true, archive, name },
            BuildV::ExperimentalArchive(_) => BuildTypeV::Experimental { latest, archive: true, name },
            _ => bt,
        },
        BuildTypeV::Patch { latest, archive, name } => match build {
            BuildV::PatchLatest(_) => BuildTypeV::Patch { latest: true, archive, name },
            BuildV::PatchArchive(_) => BuildTypeV::Patch { latest, archive: true, name },
            _ => bt,
        },
        BuildTypeV::Stable { latest, archive, lts } => match build {
            BuildV::StableLatest => BuildTypeV::Stable { latest: true, archive, lts },
            BuildV::StableArchive => BuildTypeV::Stable { latest, archive: true, lts },
            BuildV::Lts => BuildTypeV::Stable { latest, archive, lts: true },
            _ => bt,
        },
        BuildTypeV::Unset => match build {
            BuildV::DailyLatest(n) => BuildTypeV::Daily { latest: true, archive: false, name: n },
            BuildV::DailyArchive(n) => BuildTypeV::Daily { latest: false, archive: true, name: n },
            BuildV::ExperimentalLatest(n) => BuildTypeV::Experimental { latest: true, archive: false, name: n },
            BuildV::ExperimentalArchive(n) => BuildTypeV::Experimental { latest: false, archive: true, name: n },
            BuildV::PatchLatest(n) => BuildTypeV::Patch { latest: true, archive: false, name: n },
            BuildV::PatchArchive(n) => BuildTypeV::Patch { latest: false, archive: true, name: n },
            BuildV::StableLatest => BuildTypeV::Stable { latest: true, archive: false, lts: false },
            BuildV::StableArchive => BuildTypeV::Stable { latest: false, archive: true, lts: false },
            BuildV::Lts => BuildTypeV::Stable { latest: false, archive: false, lts: true },
        },
    }
}

impl BuildType {
    /// Records that the package was also found as `build`.
    pub fn update(&mut self, build: &Build)
        ensures
            final(self)@ == build_type_after(old(self)@, build@),
    {
        match self {
            BuildType::Daily { latest, archive, name: _ } => match build {
                Build::DailyLatest(_) => *latest = true,
                Build::DailyArchive(_) => *archive = true,
                _ => (),
            },
            BuildType::Experimental { latest, archive, name: _ } => match build {
                Build::ExperimentalLatest(_) => *latest = true,
                Build::ExperimentalArchive(_) => *archive = true,
                _ => (),
            },
            BuildType::Patch { latest, archive, name: _ } => match build {
                Build::PatchLatest(_) => *latest = true,
                Build::PatchArchive(_) => *archive = true,
                _ => (),
            },
            BuildType::Stable { latest, archive, lts } => match build {
                Build::StableLatest => *latest = true,
                Build::StableArchive => *archive = true,
                Build::Lts => *lts = true,
                _ => (),
            },
            BuildType::Unset => match build {
                Build::DailyLatest(name) => {
                    *self = BuildType::Daily { latest: true, archive: false, name: name.clone() };
                },
                Build::DailyArchive(name) => {
                    *self = BuildType::Daily { latest: false, archive: true, name: name.clone() };
                },
                Build::ExperimentalLatest(name) => {
                    *self = BuildType::Experimental { latest: true, archive: false, name: name.clone() };
                },
                Build::ExperimentalArchive(name) => {
                    *self = BuildType::Experimental { latest: false, archive: true, name: name.clone() };
                },
                Build::PatchLatest(name) => {
                    *self = BuildType::Patch { latest: true, archive: false, name: name.clone() };
                },
                Build::PatchArchive(name) => {
                    *self = BuildType::Patch { latest: false, archive: true, name: name.clone() };
                },
                Build::StableLatest => {
                    *self = BuildType::Stable { latest: true, archive: false, lts: false };
                },
                Build::StableArchive => {
                    *self = BuildType::Stable { latest: false, archive: true, lts: false };
                },
                Build::Lts => {
                    *self = BuildType::Stable { latest: false, archive: false, lts: true };
                },
            },
        }
    }
}


/// The operating system a package is built for.
#[derive(Clone, Copy, Debug, PartialEq, Eq, Structural)]
pub enum Os {
    Linux,
    Windows,
    MacOs,
}

/// One entry of a release's list of changes.
pub struct Change {
    pub text: String,
    pub url: String,
}

impl View for Change {
    type V = (Seq<char>, Seq<char>);

    open spec fn view(&self) -> (Seq<char>, Seq<char>) {
        (self.text@, self.url@)
    }
}

impl Clone for Change {
    fn clone(&self) -> (r: Change)
        ensures
            r == *self,
    {
        Change { text: self.text.clone(), url: self.url.clone() }
    }
}

/// Where a package stands locally. The progress of a download or an
/// extraction is shown by the interface and not kept here.
pub enum PackageState {
    Fetched,
    Downloading,
    Extracting,
    Installed,
    Errored { message: String },
}

/// The mathematical value of a `PackageState`.
pub enum PackageStateV {
    Fetched,
    Downloading,
    Extracting,
    Installed,
    Errored { message: Seq<char> },
}

impl View for PackageState {
    type V = PackageStateV;

    open spec fn view(&self) -> PackageStateV {
        match self {
            PackageState::Fetched => PackageStateV::Fetched,
            PackageState::Downloading => PackageStateV::Downloading,
            PackageState::Extracting => PackageStateV::Extracting,
            PackageState::Installed => PackageStateV::Installed,
            PackageState::Errored { message } => PackageStateV::Errored { message: message@ },
        }
    }
}

impl Clone for PackageState {
    fn clone(&self) -> (r: PackageState)
        ensures
            r == *self,
    {
        match self {
            PackageState::Fetched => PackageState::Fetched,
            PackageState::Downloading => PackageState::Downloading,
            PackageState::Extracting => PackageState::Extracting,
            PackageState::Installed => PackageState::Installed,
            PackageState::Errored { message } => PackageState::Errored { message: message.clone() },
        }
    }
}

impl Default for PackageState {
    fn default() -> (r: PackageState)
        ensures
            r == PackageState::Fetched,
    {
        PackageState::Fetched
    }
}

/// Whether a package is an update of an installed one, newly fetched, or neither.
#[derive(Clone, Copy, Debug, PartialEq, Eq, Structural)]
pub enum PackageStatus {
    Update,
    New,
    Old,
}

impl Default for PackageStatus {
    fn default() -> (r: PackageStatus)
        ensures
            r == PackageStatus::Old,
    {
        PackageStatus::Old
    }
}

/// A package of Blender: a build that can be downloaded, installed and run.
/// `date` counts seconds since the Unix epoch, UTC; `version` is the version
/// text as the `versions` crate reads it.
pub struct Package {
    pub version: String,
    pub name: String,
    pub build: Build,
    pub date: i64,
    pub commit: String,
    pub url: String,
    pub os: Os,
    pub changelog: Vec<Change>,
    pub state: PackageState,
    pub status: PackageStatus,
    pub index: usize,
    pub build_type: BuildType,
}

/// The mathematical value of a `Package`.
pub struct PackageV {
    pub version: Seq<char>,
    pub name: Seq<char>,
    pub build: BuildV,
    pub date: i64,
    pub commit: Seq<char>,
    pub url: Seq<char>,
    pub os: Os,
    pub changelog: Seq<(Seq<char>, Seq<char>)>,
    pub state: PackageStateV,
    pub status: PackageStatus,
    pub index: usize,
    pub build_type: BuildTypeV,
}

impl View for Package {
    type V = PackageV;

    open spec fn view(&self) -> PackageV {
        PackageV {
            version: self.version@,
            name: self.name@,
            build: self.build@,
            date: self.date,
            commit: self.commit@,
            url: self.url@,
            os: self.os,
            changelog: self.changelog@.map_values(|c: Change| c@),
            state: self.state@,
            status: self.status,
            index: self.index,
            build_type: self.build_type@,
        }
    }
}

impl Clone for Package {
    fn clone(&self) -> (r: Package)
        ensures
            r@ == self@,
    {
        let mut changelog: Vec<Change> = Vec::new();
        let mut i: usize = 0;
        while i < self.changelog.len()
            invariant
                0 <= i <= self.changelog.len(),
                changelog@ == self.changelog@.take(i as int),
            decreases self.changelog.len() - i,
        {
            changelog.push(self.changelog[i].clone());
            assert(changelog@ =~= self.changelog@.take(i + 1));
            i = i + 1;
        }
        assert(changelog@ =~= self.changelog@);
        let r = Package {
            version: self.version.clone(),
            name: self.name.clone(),
            build: self.build.clone(),
            date: self.date,
            commit: self.commit.clone(),
            url: self.url.clone(),
            os: self.os,
            changelog,
            state: self.state.clone(),
            status: self.status,
            index: self.index,
            build_type: self.build_type.clone(),
        };
        assert(r.changelog@.map_values(|c: Change| c@) =~= self.changelog@.map_values(
            |c: Change| c@,
        ));
        r
    }
}

/// The date of the default package: December 31, 1999, 23:59:59 UTC.
pub const DEFAULT_DATE: i64 = 946684799i64;

impl Default for Package {
    fn default() -> (r: Package)
        ensures
            r.version@ == Seq::<char>::empty(),
            r.name@ == Seq::<char>::empty(),
            r.build == Build::StableArchive,
            r.date == DEFAULT_DATE,
            r.commit@ == Seq::<char>::empty(),
            r.url@ == Seq::<char>::empty(),
            r.os == Os::Linux,
            r.changelog@ == Seq::<Change>::empty(),
            r.state == PackageState::Fetched,
            r.status == PackageStatus::Old,
            r.index == 0,
            r.build_type == BuildType::Unset,
    {
        Package {
            version: String::new(),
            name: String::new(),
            build: Build::StableArchive,
            date: DEFAULT_DATE,
            commit: String::new(),
            url: String::new(),
            os: Os::Linux,
            changelog: Vec::new(),
            state: PackageState::Fetched,
            status: PackageStatus::Old,
            index: 0,
            build_type: BuildType::Unset,
        }
    }
}

/// A build from the build server (daily, experimental or patch), as opposed
/// to a stable or long-term support release.
pub open spec fn is_builder_build(b: BuildV) -> bool {
    !(b is StableLatest || b is StableArchive || b is Lts)
}

/// Two packages are the same one: builds of the build server by their build
/// and date, releases by their name and version.
pub open spec fn same_package(a: PackageV, b: PackageV) -> bool {
    if is_builder_build(a.build) {
        a.build == b.build && a.date == b.date
    } else {
        a.name == b.name && versions_equal(a.version, b.version)
    }
}

impl Build {
    /// Whether the build comes from the build server.
    pub fn is_builder(&self) -> (r: bool)
        ensures
            r == is_builder_build(self@),
    {
        match self {
            Build::StableLatest | Build::StableArchive | Build::Lts => false,
            _ => true,
        }
    }

    /// The position of the variant in the declaration.
    pub open spec fn rank_of(b: BuildV) -> int {
        match b {
            BuildV::DailyLatest(_) => 0,
            BuildV::DailyArchive(_) => 1,
            BuildV::ExperimentalLatest(_) => 2,
            BuildV::ExperimentalArchive(_) => 3,
            BuildV::PatchLatest(_) => 4,
            BuildV::PatchArchive(_) => 5,
            BuildV::StableLatest => 6,
            BuildV::StableArchive => 7,
            BuildV::Lts => 8,
        }
    }

    /// The branch or variant name of the build, empty for releases.
    pub open spec fn label_of(b: BuildV) -> Seq<char> {
        match b {
            BuildV::DailyLatest(s) => s,
            BuildV::DailyArchive(s) => s,
            BuildV::ExperimentalLatest(s) => s,
            BuildV::ExperimentalArchive(s) => s,
            BuildV::PatchLatest(s) => s,
            BuildV::PatchArchive(s) => s,
            _ => Seq::empty(),
        }
    }

    /// The position of the variant in the declaration.
    pub fn rank(&self) -> (r: u8)
        ensures
            r == Build::rank_of(self@),
    {
        match self {
            Build::DailyLatest(_) => 0,
            Build::DailyArchive(_) => 1,
            Build::ExperimentalLatest(_) => 2,
            Build::ExperimentalArchive(_) => 3,
            Build::PatchLatest(_) => 4,
            Build::PatchArchive(_) => 5,
            Build::StableLatest => 6,
            Build::StableArchive => 7,
            Build::Lts => 8,
        }
    }

    /// The branch or variant name of the build, empty for releases.
    pub fn label(&self) -> (r: &str)
        ensures
            r@ == Build::label_of(self@),
    {
        proof {
            reveal_strlit("");
        }
        match self {
            Build::DailyLatest(s) => s.as_str(),
            Build::DailyArchive(s) => s.as_str(),
            Build::ExperimentalLatest(s) => s.as_str(),
            Build::ExperimentalArchive(s) => s.as_str(),
            Build::PatchLatest(s) => s.as_str(),
            Build::PatchArchive(s) => s.as_str(),
            _ => "",
        }
    }

    /// Two builds are the same: same variant and, for builds of the build
    /// server, the same name.
    pub fn same(&self, other: &Build) -> (r: bool)
        ensures
            r == (self@ == other@),
    {
        let a = self.rank();
        let b = other.rank();
        if a != b {
            return false;
        }
        let x = self.label();
        let y = other.label();
        let o = compare_text(x, y);
        proof {
            lemma_lex_order_antisymmetric(x@, y@);
        }
        o == 0
    }
}


/// An integer sign as an ordering.
pub open spec fn ordering_of(i: int) -> Ordering {
    if i < 0 {
        Ordering::Less
    } else if i == 0 {
        Ordering::Equal
    } else {
        Ordering::Greater
    }
}

/// The order that `derive(Ord)` gives builds: by variant, then by name.
pub open spec fn build_order(a: BuildV, b: BuildV) -> Ordering {
    if Build::rank_of(a) < Build::rank_of(b) {
        Ordering::Less
    } else if Build::rank_of(a) > Build::rank_of(b) {
        Ordering::Greater
    } else {
        ordering_of(lex_order(Build::label_of(a), Build::label_of(b)))
    }
}

/// The order of two dates.
pub open spec fn date_order(a: i64, b: i64) -> Ordering {
    if a < b {
        Ordering::Less
    } else if a == b {
        Ordering::Equal
    } else {
        Ordering::Greater
    }
}

/// The order of packages in a list: builds of the build server by build
/// and then newest first; releases by version, newest first. The kind of
/// the first package decides which.
pub open spec fn package_order(a: PackageV, b: PackageV) -> Ordering {
    if is_builder_build(a.build) {
        match build_order(a.build, b.build) {
            Ordering::Equal => reversed(date_order(a.date, b.date)),
            o => o,
        }
    } else {
        reversed(version_order(a.version, b.version))
    }
}

/// The order of packages ties `a` and `b`, two packages of one family.
pub open spec fn ties(a: PackageV, b: PackageV) -> bool {
    same_family(a, b) && package_order(a, b) == Ordering::Equal
}

/// `a` may stand before `b` in a sorted list.
pub open spec fn in_order(a: PackageV, b: PackageV) -> bool {
    package_order(a, b) != Ordering::Greater
}

/// Both packages are builds of the build server, or both are releases.
pub open spec fn same_family(a: PackageV, b: PackageV) -> bool {
    is_builder_build(a.build) == is_builder_build(b.build)
}

impl Build {
    /// The order that `derive(Ord)` gives builds: by variant, then by name.
    pub fn compare(&self, other: &Build) -> (r: Ordering)
        ensures
            r == build_order(self@, other@),
            build_order(other@, self@) == reversed(r),
    {
        let a = self.rank();
        let b = other.rank();
        if a < b {
            Ordering::Less
        } else if a > b {
            Ordering::Greater
        } else {
            let x = self.label();
            let y = other.label();
            let o = compare_text(x, y);
            proof {
                lemma_lex_order_antisymmetric(x@, y@);
            }
            if o < 0 {
                Ordering::Less
            } else if o == 0 {
                Ordering::Equal
            } else {
                Ordering::Greater
            }
        }
    }
}

/// The order of two dates.
pub fn compare_dates(a: i64, b: i64) -> (r: Ordering)
    ensures
        r == date_order(a, b),
{
    if a < b {
        Ordering::Less
    } else if a == b {
        Ordering::Equal
    } else {
        Ordering::Greater
    }
}

impl Package {
    /// The order of packages in a list: builds of the build server by build
    /// and then newest first; releases by version, newest first. Between two
    /// packages of the same family the order is antisymmetric.
    pub fn cmp(&self, other: &Package) -> (r: Ordering)
        ensures
            r == package_order(self@, other@),
            same_family(self@, other@) ==> package_order(other@, self@) == reversed(r),
    {
        if self.build.is_builder() {
            let b = self.build.compare(&other.build);
            match b {
                Ordering::Equal => compare_dates(other.date, self.date),
                _ => b,
            }
        } else {
            let v = compare_versions(self.version.as_str(), other.version.as_str());
            match v {
                Ordering::Less => Ordering::Greater,
                Ordering::Equal => Ordering::Equal,
                Ordering::Greater => Ordering::Less,
            }
        }
    }

    /// `self` must come after `other` in a sorted list.
    pub fn goes_after(&self, other: &Package) -> (r: bool)
        ensures
            r == !in_order(self@, other@),
            r && same_family(self@, other@) ==> in_order(other@, self@) && !ties(other@, self@),
    {
        match self.cmp(other) {
            Ordering::Greater => true,
            _ => false,
        }
    }
}

impl PartialEq for Package {
    fn eq(&self, other: &Package) -> (r: bool) {
        if self.build.is_builder() {
            self.build.same(&other.build) && self.date == other.date
        } else {
            self.name == other.name && same_version(self.version.as_str(), other.version.as_str())
        }
    }
}

impl PartialEqSpecImpl for Package {
    open spec fn obeys_eq_spec() -> bool {
        true
    }

    open spec fn eq_spec(&self, other: &Package) -> bool {
        same_package(self@, other@)
    }
}

/// How a package's lists are named after its group: the latest list, the
/// archive, or both.
pub open spec fn lists_text(latest: bool, archive: bool) -> Seq<char> {
    if latest && !archive {
        " (latest): "@
    } else if !latest && archive {
        " (archive): "@
    } else {
        " (latest and archive): "@
    }
}

/// How the lists of a stable release are named.
pub open spec fn stable_text(latest: bool, archive: bool, lts: bool) -> Seq<char> {
    let t = if latest && archive {
        "Stable (latest and archive)"@
    } else if latest {
        "Stable (latest)"@
    } else if archive {
        "Stable (archive)"@
    } else {
        Seq::empty()
    };
    if lts {
        if t.len() > 0 {
            t + " | "@ + "Long-term Support"@
        } else {
            "Long-term Support"@
        }
    } else {
        t
    }
}

/// How a build type is shown: its group, the lists it was found in, and
/// the name of its branch or variant.
pub open spec fn build_type_text(bt: BuildTypeV) -> Seq<char> {
    match bt {
        BuildTypeV::Daily { latest, archive, name } => "Daily"@ + lists_text(latest, archive) + name,
        BuildTypeV::Experimental { latest, archive, name } => "Experimental"@ + lists_text(latest, archive) + name,
        BuildTypeV::Patch { latest, archive, name } => "Patch"@ + lists_text(latest, archive) + name,
        BuildTypeV::Stable { latest, archive, lts } => stable_text(latest, archive, lts),
        BuildTypeV::Unset => Seq::empty(),
    }
}

/// How a package's lists are named.
fn lists_text_of(latest: bool, archive: bool) -> (r: &'static str)
    ensures
        r@ == lists_text(latest, archive),
{
    if latest && !archive {
        " (latest): "
    } else if !latest && archive {
        " (archive): "
    } else {
        " (latest and archive): "
    }
}

impl BuildType {
    /// How the build type is shown. It was set when the lists were merged.
    pub fn text(&self) -> (r: String)
        requires
            !(*self is Unset),
        ensures
            r@ == build_type_text(self@),
    {
        match self {
            BuildType::Daily { latest, archive, name } => String::from_str("Daily").concat(lists_text_of(*latest, *archive)).concat(name.as_str()),
            BuildType::Experimental { latest, archive, name } => String::from_str("Experimental").concat(lists_text_of(*latest, *archive)).concat(name.as_str()),
            BuildType::Patch { latest, archive, name } => String::from_str("Patch").concat(lists_text_of(*latest, *archive)).concat(name.as_str()),
            BuildType::Stable { latest, archive, lts } => {
                let t = if *latest && *archive {
                    String::from_str("Stable (latest and archive)")
                } else if *latest {
                    String::from_str("Stable (latest)")
                } else if *archive {
                    String::from_str("Stable (archive)")
                } else {
                    String::new()
                };
                proof {
                    reveal_strlit("Stable (latest and archive)");
                    reveal_strlit("Stable (latest)");
                    reveal_strlit("Stable (archive)");
                }
                if *lts {
                    if t.unicode_len() > 0 {
                        t.concat(" | ").concat("Long-term Support")
                    } else {
                        String::from_str("Long-term Support")
                    }
                } else {
                    t
                }
            },
            BuildType::Unset => String::new(),
        }
    }
}

/// The seconds from `date` to `now`, none where `now` is not later.
pub open spec fn seconds_since(date: i64, now: i64) -> u64 {
    if now > date {
        (now - date) as u64
    } else {
        0
    }
}

/// The format of a package's date.
pub open spec fn date_format() -> Seq<char> {
    "%B %d, %Y - %T"@
}

impl Package {
    /// The package's date as it is shown: written out, then how long ago
    /// it was at `now` (seconds since the Unix epoch), in at most two
    /// units; `None` where the date cannot be written.
    pub fn get_formatted_date_time(&self, now: i64) -> (r: Option<String>)
        ensures
            match r {
                Some(t) => date_formatted(self.date, date_format()) matches Some(d) && t@ == d
                    + " ("@ + ago_text(seconds_since(self.date, now), 2) + ")"@,
                None => date_formatted(self.date, date_format()) is None,
            },
    {
        let span: i128 = now as i128 - self.date as i128;
        let seconds: u64 = if span > 0 {
            span as u64
        } else {
            0
        };
        match format_date(self.date, "%B %d, %Y - %T") {
            Some(d) => Some(d.concat(" (").concat(time_ago(seconds, 2).as_str()).concat(")")),
            None => None,
        }
    }
}

} // verus!
