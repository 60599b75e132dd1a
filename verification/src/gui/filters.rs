//! Which packages the packages tab shows.
use crate::package::{BuildTypeV, Package, PackageStateV, PackageStatus, PackageV};
use crate::settings::Bookmarks;
use vstd::prelude::*;

verus! {

/// The filters of the packages tab: kinds of builds to show, and whether
/// to show only updates, only bookmarked or only installed packages.
#[derive(Clone, Copy, Debug, PartialEq, Eq, Structural)]
pub struct Filters {
    pub updates: bool,
    pub bookmarks: bool,
    pub installed: bool,
    pub all: bool,
    pub daily_latest: bool,
    pub daily_archive: bool,
    pub experimental_latest: bool,
    pub experimental_archive: bool,
    pub patch_latest: bool,
    pub patch_archive: bool,
    pub stable_latest: bool,
    pub stable_archive: bool,
    pub lts: bool,
}

/// Every kind of build is shown.
pub open spec fn every_kind(f: Filters) -> bool {
    f.daily_latest && f.daily_archive && f.experimental_latest && f.experimental_archive
        && f.patch_latest && f.patch_archive && f.stable_latest && f.stable_archive && f.lts
}

/// The package was found in a list whose kind is shown.
pub open spec fn kind_shown(f: Filters, bt: BuildTypeV) -> bool {
    match bt {
        BuildTypeV::Daily { latest, archive, .. } => f.daily_latest && latest || f.daily_archive
            && archive,
        BuildTypeV::Experimental { latest, archive, .. } => f.experimental_latest && latest
            || f.experimental_archive && archive,
        BuildTypeV::Patch { latest, archive, .. } => f.patch_latest && latest || f.patch_archive
            && archive,
        BuildTypeV::Stable { latest, archive, lts } => f.stable_latest && latest
            || f.stable_archive && archive || f.lts && lts,
        BuildTypeV::Unset => false,
    }
}

/// The package is shown: its kind is shown, and it is an update, installed
/// and bookmarked where those filters are on.
pub open spec fn shown(f: Filters, p: PackageV, bookmarks: Seq<Seq<char>>) -> bool {
    &&& kind_shown(f, p.build_type)
    &&& f.updates ==> p.status == PackageStatus::Update
    &&& f.installed ==> p.state is Installed
    &&& f.bookmarks ==> bookmarks.contains(p.name)
}

impl Filters {
    /// Whether the package is shown. Its build type must have been set when
    /// the lists were merged.
    pub fn matches(&self, package: &Package, bookmarks: &Bookmarks) -> (r: bool)
        requires
            !(package.build_type@ is Unset),
        ensures
            r == shown(*self, package@, bookmarks@),
    {
        let mut matches = match &package.build_type {
            crate::package::BuildType::Daily { latest, archive, name: _ } => self.daily_latest
                && *latest || self.daily_archive && *archive,
            crate::package::BuildType::Experimental { latest, archive, name: _ } => self.experimental_latest
                && *latest || self.experimental_archive && *archive,
            crate::package::BuildType::Patch { latest, archive, name: _ } => self.patch_latest
                && *latest || self.patch_archive && *archive,
            crate::package::BuildType::Stable { latest, archive, lts } => self.stable_latest
                && *latest || self.stable_archive && *archive || self.lts && *lts,
            crate::package::BuildType::Unset => false,
        };
        if !matches {
            return false;
        }
        if self.updates {
            matches = package.status == PackageStatus::Update;
        }
        if !matches {
            return false;
        }
        if self.installed {
            matches = matches!(package.state, crate::package::PackageState::Installed);
        }
        if !matches {
            return false;
        }
        if self.bookmarks {
            matches = bookmarks.contains(package.name.as_str());
        }
        matches
    }

    /// Sets the "all" filter to whether every kind of build is shown.
    pub fn refresh_all(&mut self)
        ensures
            final(self).all == every_kind(*old(self)),
            *final(self) == (Filters { all: every_kind(*old(self)), ..*old(self) }),
    {
        self.all = self.daily_latest && self.daily_archive && self.experimental_latest
            && self.experimental_archive && self.patch_latest && self.patch_archive
            && self.stable_latest && self.stable_archive && self.lts;
    }

    /// Shows or hides every kind of build at once.
    pub fn set_all(&mut self, change: bool)
        ensures
            *final(self) == (Filters {
                all: change,
                daily_latest: change,
                daily_archive: change,
                experimental_latest: change,
                experimental_archive: change,
                patch_latest: change,
                patch_archive: change,
                stable_latest: change,
                stable_archive: change,
                lts: change,
                ..*old(self)
            }),
    {
        self.all = change;
        self.daily_latest = change;
        self.daily_archive = change;
        self.experimental_latest = change;
        self.experimental_archive = change;
        self.patch_latest = change;
        self.patch_archive = change;
        self.stable_latest = change;
        self.stable_archive = change;
        self.lts = change;
    }
}

impl Filters {
    /// The default filters: every kind of build, with no other restriction.
    pub open spec fn default_spec() -> Filters {
        Filters {
            updates: false,
            bookmarks: false,
            installed: false,
            all: true,
            daily_latest: true,
            daily_archive: true,
            experimental_latest: true,
            experimental_archive: true,
            patch_latest: true,
            patch_archive: true,
            stable_latest: true,
            stable_archive: true,
            lts: true,
        }
    }
}

impl Default for Filters {
    fn default() -> (r: Filters)
        ensures
            r == Filters::default_spec(),
            r == (Filters {
                updates: false,
                bookmarks: false,
                installed: false,
                all: true,
                daily_latest: true,
                daily_archive: true,
                experimental_latest: true,
                experimental_archive: true,
                patch_latest: true,
                patch_archive: true,
                stable_latest: true,
                stable_archive: true,
                lts: true,
            }),
    {
        Filters {
            updates: false,
            bookmarks: false,
            installed: false,
            all: true,
            daily_latest: true,
            daily_archive: true,
            experimental_latest: true,
            experimental_archive: true,
            patch_latest: true,
            patch_archive: true,
            stable_latest: true,
            stable_archive: true,
            lts: true,
        }
    }
}

} // verus!
