//! The launcher's settings and the small rules that change them.
use crate::gui::filters::Filters;
use crate::gui::sort_by::SortBy;
use crate::gui::style::Theme;
use crate::gui::tabs::recent_files::RecentFiles;
use crate::gui::tabs::Tab;
use crate::package::Package;
use crate::text::same_text;
use vstd::prelude::*;

verus! {

/// The key that, held while the launcher starts, opens its window even
/// when it is set to start the default package directly.
#[derive(Clone, Copy, Debug, PartialEq, Eq, Structural)]
pub enum ModifierKey {
    Shift,
    Control,
    Alt,
}

impl ModifierKey {
    /// All keys, in the order they are offered.
    pub fn all() -> (r: Vec<ModifierKey>)
        ensures
            r@ == seq![ModifierKey::Shift, ModifierKey::Control, ModifierKey::Alt],
    {
        vec![ModifierKey::Shift, ModifierKey::Control, ModifierKey::Alt]
    }

    /// The name of the key as it is shown.
    pub fn label(&self) -> (r: &'static str)
        ensures
            *self == ModifierKey::Shift ==> r@ == "shift"@,
            *self == ModifierKey::Control ==> r@ == "ctrl"@,
            *self == ModifierKey::Alt ==> r@ == "alt"@,
    {
        match self {
            ModifierKey::Shift => "shift",
            ModifierKey::Control => "ctrl",
            ModifierKey::Alt => "alt",
        }
    }
}

/// The names of the bookmarked packages.
pub struct Bookmarks(pub Vec<String>);

impl View for Bookmarks {
    type V = Seq<Seq<char>>;

    open spec fn view(&self) -> Seq<Seq<char>> {
        self.0@.map_values(|s: String| s@)
    }
}

/// No name occurs twice.
pub open spec fn no_duplicates(s: Seq<Seq<char>>) -> bool {
    forall|i: int, j: int| 0 <= i < s.len() && 0 <= j < s.len() && i != j ==> s[i] != s[j]
}

/// The first position of `x` in `s` from `i` on, or the length of `s`.
pub open spec fn first_index_from(s: Seq<Seq<char>>, x: Seq<char>, i: int) -> int
    decreases s.len() - i,
{
    if i < 0 || i >= s.len() {
        s.len() as int
    } else if s[i] == x {
        i
    } else {
        first_index_from(s, x, i + 1)
    }
}

/// The bookmarks with `name` taken out (its first occurrence) if it is
/// there, or added at the end if it is not.
pub open spec fn toggled(s: Seq<Seq<char>>, name: Seq<char>) -> Seq<Seq<char>> {
    if s.contains(name) {
        s.remove(first_index_from(s, name, 0))
    } else {
        s.push(name)
    }
}

/// The bookmarks that name one of the packages, in their order.
pub open spec fn kept_bookmarks(s: Seq<Seq<char>>, names: Seq<Seq<char>>) -> Seq<Seq<char>>
    decreases s.len(),
{
    if s.len() == 0 {
        Seq::empty()
    } else {
        let before = kept_bookmarks(s.drop_last(), names);
        if names.contains(s.last()) {
            before.push(s.last())
        } else {
            before
        }
    }
}

/// The names of a list of packages.
pub open spec fn package_names(packages: Seq<Package>) -> Seq<Seq<char>> {
    packages.map_values(|p: Package| p.name@)
}

impl Default for Bookmarks {
    fn default() -> (r: Bookmarks)
        ensures
            r@ == Seq::<Seq<char>>::empty(),
    {
        let r = Bookmarks(Vec::new());
        assert(r@ =~= Seq::<Seq<char>>::empty());
        r
    }
}

impl Bookmarks {
    /// Whether `name` is bookmarked.
    pub fn contains(&self, name: &str) -> (r: bool)
        ensures
            r == self@.contains(name@),
    {
        let mut i: usize = 0;
        while i < self.0.len()
            invariant
                0 <= i <= self.0.len(),
                forall|k: int| 0 <= k < i ==> self@[k] != name@,
            decreases self.0.len() - i,
        {
            assert(self@[i as int] == self.0@[i as int]@);
            if same_text(self.0[i].as_str(), name) {
                return true;
            }
            i = i + 1;
        }
        false
    }

    /// Whether no name is bookmarked twice.
    pub fn has_no_duplicates(&self) -> (r: bool)
        ensures
            r == no_duplicates(self@),
    {
        let mut i: usize = 0;
        while i < self.0.len()
            invariant
                0 <= i <= self.0.len(),
                forall|a: int, b: int| 0 <= a < i && 0 <= b < self@.len() && a != b ==> self@[a] != self@[b],
            decreases self.0.len() - i,
        {
            let mut j: usize = 0;
            while j < self.0.len()
                invariant
                    0 <= i < self.0.len(),
                    0 <= j <= self.0.len(),
                    forall|b: int| 0 <= b < j && b != i ==> self@[i as int] != self@[b],
                decreases self.0.len() - j,
            {
                assert(self@[i as int] == self.0@[i as int]@ && self@[j as int] == self.0@[j as int]@);
                if j != i && same_text(self.0[i].as_str(), self.0[j].as_str()) {
                    return false;
                }
                j = j + 1;
            }
            i = i + 1;
        }
        true
    }

    /// Bookmarks the package named `package_name`, or takes the bookmark
    /// away if it is already there.
    pub fn update(&mut self, package_name: String)
        ensures
            final(self)@ == toggled(old(self)@, package_name@),
            no_duplicates(old(self)@) ==> no_duplicates(final(self)@),
    {
        let ghost start = self@;
        let mut found: Option<usize> = None;
        let mut i: usize = 0;
        while i < self.0.len()
            invariant_except_break
                found is None,
            invariant
                0 <= i <= self.0.len(),
                self@ == start,
                forall|k: int| 0 <= k < i ==> self@[k] != package_name@,
                first_index_from(start, package_name@, 0) == first_index_from(
                    start,
                    package_name@,
                    i as int,
                ),
            ensures
                match found {
                    Some(j) => j < self.0.len() && start[j as int] == package_name@
                        && first_index_from(start, package_name@, 0) == j,
                    None => forall|k: int| 0 <= k < start.len() ==> start[k] != package_name@,
                },
            decreases self.0.len() - i,
        {
            assert(self@[i as int] == self.0@[i as int]@);
            if self.0[i] == package_name {
                found = Some(i);
                break;
            }
            i = i + 1;
        }
        if let Some(i) = found {
            proof {
                assert(start.contains(package_name@));
            }
            let ghost before = self.0@;
            self.0.remove(i);
            proof {
                assert(toggled(start, package_name@) == start.remove(i as int));
                assert(self.0@ == before.remove(i as int));
                assert(self@ =~= start.remove(i as int)) by {
                    assert forall|a: int| 0 <= a < self@.len() implies self@[a] == start.remove(
                        i as int,
                    )[a] by {
                        if a < i {
                            assert(self.0@[a] == before[a]);
                        } else {
                            assert(self.0@[a] == before[a + 1]);
                        }
                    }
                }
                if no_duplicates(start) {
                    assert forall|a: int, b: int|
                        0 <= a < self@.len() && 0 <= b < self@.len() && a != b implies self@[a]
                        != self@[b] by {
                        let a0 = if a < i { a } else { a + 1 };
                        let b0 = if b < i { b } else { b + 1 };
                        assert(self@[a] == start[a0] && self@[b] == start[b0]);
                    }
                }
            }
            return;
        }
        assert(!start.contains(package_name@));
        self.0.push(package_name);
        proof {
            assert(self@ =~= start.push(package_name@));
            if no_duplicates(start) {
                assert forall|a: int, b: int|
                    0 <= a < self@.len() && 0 <= b < self@.len() && a != b implies self@[a]
                    != self@[b] by {
                    if a == start.len() {
                        assert(self@[b] == start[b]);
                    } else if b == start.len() {
                        assert(self@[a] == start[a]);
                    }
                }
            }
        }
    }

    /// Takes away the bookmarks of packages that are no longer listed.
    /// Bookmarks never hold a name twice; removing them
    /// by position relies on it.
    pub fn clean(&mut self, packages: &Vec<Package>)
        requires
            no_duplicates(old(self)@),
        ensures
            final(self)@ == kept_bookmarks(old(self)@, package_names(packages@)),
            no_duplicates(final(self)@),
    {
        let ghost start = self@;
        let ghost names = package_names(packages@);
        let mut rest: Vec<String> = Vec::new();
        std::mem::swap(&mut rest, &mut self.0);
        let ghost all = rest@;
        let mut k: usize = 0;
        let total = rest.len();
        assert(all.skip(0) =~= all);
        assert(start.take(0) =~= Seq::<Seq<char>>::empty());
        while rest.len() > 0
            invariant
                k + rest@.len() == all.len(),
                all.len() == total,
                names == package_names(packages@),
                start == all.map_values(|s: String| s@),
                rest@ == all.skip(k as int),
                self@ == kept_bookmarks(start.take(k as int), names),
                forall|a: int| 0 <= a < self@.len() ==> start.take(k as int).contains(#[trigger] self@[a]),
                no_duplicates(start),
                no_duplicates(self@),
            decreases rest.len(),
        {
            let b = rest.remove(0);
            assert(b@ == start[k as int]);
            assert(start.take(k + 1).drop_last() =~= start.take(k as int));
            assert(start.take(k + 1).last() == b@);
            let mut listed = false;
            let mut j: usize = 0;
            while j < packages.len()
                invariant
                    0 <= j <= packages.len(),
                    names == package_names(packages@),
                    listed == exists|m: int| 0 <= m < j && names[m] == b@,
                decreases packages.len() - j,
            {
                assert(names[j as int] == packages@[j as int].name@);
                if packages[j].name == b {
                    listed = true;
                }
                j = j + 1;
            }
            assert(listed == names.contains(b@));
            if listed {
                let ghost prev = self@;
                proof {
                    assert forall|a: int| 0 <= a < prev.len() implies prev[a] != b@ by {
                        let x = choose|x: int| 0 <= x < k && start.take(k as int)[x] == prev[a];
                        assert(start[x] == prev[a]);
                    }
                }
                self.0.push(b);
                proof {
                    assert(self@ =~= prev.push(b@));
                    assert forall|x: int, y: int|
                        0 <= x < self@.len() && 0 <= y < self@.len() && x != y implies self@[x]
                        != self@[y] by {
                        if x == prev.len() {
                            assert(self@[y] == prev[y]);
                        } else if y == prev.len() {
                            assert(self@[x] == prev[x]);
                        } else {
                            assert(self@[x] == prev[x] && self@[y] == prev[y]);
                        }
                    }
                    assert forall|a: int| 0 <= a < self@.len() implies start.take(k + 1).contains(
                        #[trigger] self@[a],
                    ) by {
                        if a < prev.len() {
                            let x = choose|x: int| 0 <= x < k && start.take(k as int)[x] == prev[a];
                            assert(start.take(k + 1)[x] == prev[a]);
                        } else {
                            assert(start.take(k + 1)[k as int] == b@);
                        }
                    }
                }
            } else {
                proof {
                    assert forall|a: int| 0 <= a < self@.len() implies start.take(k + 1).contains(
                        #[trigger] self@[a],
                    ) by {
                        let x = choose|x: int| 0 <= x < k && start.take(k as int)[x] == self@[a];
                        assert(start.take(k + 1)[x] == self@[a]);
                    }
                }
            }
            k = k + 1;
            assert(rest@ =~= all.skip(k as int));
        }
        assert(start.take(k as int) =~= start);
    }
}


/// The launcher's settings. Directories are paths as text; the time of the
/// last check for updates counts seconds since the Unix epoch.
pub struct Settings {
    pub recent_files: RecentFiles,
    pub bookmarks: Bookmarks,
    pub tab: Tab,
    pub default_package: Option<Package>,
    pub bypass_launcher: bool,
    pub modifier_key: ModifierKey,
    pub use_latest_as_default: bool,
    pub check_updates_at_launch: bool,
    pub minutes_between_updates: u64,
    pub update_daily_latest: bool,
    pub update_experimental_latest: bool,
    pub update_patch_latest: bool,
    pub update_stable_latest: bool,
    pub update_lts: bool,
    pub databases_dir: String,
    pub packages_dir: String,
    pub cache_dir: String,
    pub last_update_time: u64,
    pub filters: Filters,
    pub sort_by: SortBy,
    pub theme: Theme,
    pub self_updater: bool,
    pub check_self_updates_at_launch: bool,
}

/// The most minutes that may pass between checks for updates: a day.
pub const MAX_MINUTES_BETWEEN_UPDATES: u64 = 1440u64;

/// The minutes between checks for updates after changing them by `change`:
/// raised at most to a day, lowered at least to zero.
pub open spec fn changed_minutes(current: u64, change: i64) -> u64 {
    if change > 0 {
        if current + change > MAX_MINUTES_BETWEEN_UPDATES {
            MAX_MINUTES_BETWEEN_UPDATES
        } else {
            (current + change) as u64
        }
    } else if current >= -change {
        (current + change) as u64
    } else {
        0
    }
}

impl Settings {
    /// The default settings, keeping files in the given directories. The
    /// last check for updates is taken to be an hour before `now`, so that
    /// the first launch looks for updates.
    pub fn defaults(config_dir: String, data_local_dir: String, cache_dir: String, now: u64) -> (r: Settings)
        ensures
            r.recent_files.0@ == Seq::<crate::gui::tabs::recent_files::RecentFile>::empty(),
            r.bookmarks@ == Seq::<Seq<char>>::empty(),
            r.tab == Tab::Packages,
            r.default_package is None,
            !r.bypass_launcher,
            r.modifier_key == ModifierKey::Shift,
            r.use_latest_as_default,
            r.check_updates_at_launch,
            r.minutes_between_updates == 60,
            r.update_daily_latest && r.update_experimental_latest && r.update_patch_latest
                && r.update_stable_latest && r.update_lts,
            r.databases_dir == config_dir,
            r.packages_dir == data_local_dir,
            r.cache_dir == cache_dir,
            r.last_update_time == (if now >= 3600 { now - 3600 } else { now as int }),
            r.filters == Filters::default_spec(),
            r.sort_by == SortBy::VersionDescending,
            r.theme == Theme::Dark,
            !r.self_updater,
            !r.check_self_updates_at_launch,
    {
        let minutes_between_updates: u64 = 60;
        Settings {
            recent_files: RecentFiles::default(),
            bookmarks: Bookmarks::default(),
            tab: Tab::default(),
            default_package: None,
            bypass_launcher: false,
            modifier_key: ModifierKey::Shift,
            use_latest_as_default: true,
            check_updates_at_launch: true,
            minutes_between_updates,
            update_daily_latest: true,
            update_experimental_latest: true,
            update_patch_latest: true,
            update_stable_latest: true,
            update_lts: true,
            databases_dir: config_dir,
            packages_dir: data_local_dir,
            cache_dir,
            last_update_time: if now >= minutes_between_updates * 60 {
                now - minutes_between_updates * 60
            } else {
                now
            },
            filters: Filters::default(),
            sort_by: SortBy::default(),
            theme: Theme::default(),
            self_updater: false,
            check_self_updates_at_launch: false,
        }
    }

    /// Changes the minutes between checks for updates by `change`, keeping
    /// them between zero and a day (a raise beyond a day gives a day).
    pub fn change_minutes_between_updates(&mut self, change: i64)
        ensures
            *final(self) == (Settings {
                minutes_between_updates: changed_minutes(old(self).minutes_between_updates, change),
                ..*old(self)
            }),
    {
        let current = self.minutes_between_updates;
        if change > 0 {
            let step = change as u64;
            if step > MAX_MINUTES_BETWEEN_UPDATES || current > MAX_MINUTES_BETWEEN_UPDATES - step {
                self.minutes_between_updates = MAX_MINUTES_BETWEEN_UPDATES;
            } else {
                self.minutes_between_updates = current + step;
            }
        } else {
            let step: u64 = if change == i64::MIN {
                9223372036854775808u64
            } else {
                (-change) as u64
            };
            if current >= step {
                self.minutes_between_updates = current - step;
            } else {
                self.minutes_between_updates = 0;
            }
        }
    }
}

/// `PathBuf::join` of a relative name onto a directory, on Unix: a `/`
/// goes between them unless the directory is empty or already ends in one.
pub open spec fn path_join(dir: Seq<char>, name: Seq<char>) -> Seq<char> {
    if dir.len() == 0 || dir.last() == '/' {
        dir + name
    } else {
        dir + "/"@ + name
    }
}

/// The name `name` joined onto the directory `dir`.
pub fn join_path(dir: &str, name: &str) -> (r: String)
    ensures
        r@ == path_join(dir@, name@),
{
    let n = dir.unicode_len();
    if n == 0 || dir.get_char(n - 1) == '/' {
        String::from_str(dir).concat(name)
    } else {
        String::from_str(dir).concat("/").concat(name)
    }
}

/// The settings of portable mode: those read, with the databases, packages
/// and cache kept in directories beside the executable.
pub fn portable_settings(s: Settings, exe_dir: String) -> (r: Settings)
    ensures
        r.databases_dir@ == path_join(exe_dir@, "databases"@),
        r.packages_dir@ == path_join(exe_dir@, "packages"@),
        r.cache_dir@ == path_join(exe_dir@, "cache"@),
        r == (Settings {
            databases_dir: r.databases_dir,
            packages_dir: r.packages_dir,
            cache_dir: r.cache_dir,
            ..s
        }),
{
    let databases_dir = join_path(exe_dir.as_str(), "databases");
    let packages_dir = join_path(exe_dir.as_str(), "packages");
    let cache_dir = join_path(exe_dir.as_str(), "cache");
    Settings { databases_dir, packages_dir, cache_dir, ..s }
}

/// Where the settings are kept: beside the executable in portable mode;
/// else at the path that the environment variable `ABLAVEMA_CONFIG_FILE`
/// names, where it is set; else in the configuration directory.
pub open spec fn config_path_spec(portable: bool, env_path: Option<String>, exe_dir: Seq<char>, config_dir: Seq<char>) -> Seq<char> {
    if portable {
        path_join(exe_dir, "config.ron"@)
    } else {
        match env_path {
            Some(p) => p@,
            None => path_join(config_dir, "config.ron"@),
        }
    }
}

/// The path of the settings file; `portable` tells whether a file named
/// `portable` lies beside the executable, `env_path` is the value of
/// `ABLAVEMA_CONFIG_FILE` where it is set.
pub fn config_path(portable: bool, env_path: Option<String>, exe_dir: String, config_dir: String) -> (r: String)
    ensures
        r@ == config_path_spec(portable, env_path, exe_dir@, config_dir@),
{
    if portable {
        join_path(exe_dir.as_str(), "config.ron")
    } else {
        match env_path {
            Some(p) => p,
            None => join_path(config_dir.as_str(), "config.ron"),
        }
    }
}

} // verus!
