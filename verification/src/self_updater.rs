//! Releases of the launcher itself.
use crate::helpers::ReturnOption;
use vstd::prelude::*;

verus! {

/// A release of the launcher, as its release list gives it.
pub struct Release {
    pub version: String,
}

impl Clone for Release {
    fn clone(&self) -> (r: Release)
        ensures
            r == *self,
    {
        Release { version: self.version.clone() }
    }
}

/// The versions of the releases, in their order.
pub open spec fn release_versions(releases: Seq<Release>) -> Seq<String> {
    releases.map_values(|r: Release| r.version)
}

/// The versions of the releases, in their order.
pub fn versions_of(releases: &Vec<Release>) -> (r: Vec<String>)
    ensures
        r@ == release_versions(releases@),
{
    let mut res: Vec<String> = Vec::new();
    let mut i: usize = 0;
    while i < releases.len()
        invariant
            0 <= i <= releases.len(),
            res@ == release_versions(releases@.take(i as int)),
        decreases releases.len() - i,
    {
        res.push(releases[i].version.clone());
        assert(release_versions(releases@.take(i + 1)) =~= release_versions(releases@.take(i as int)).push(releases@[i as int].version));
        i = i + 1;
    }
    assert(releases@.take(i as int) =~= releases@);
    res
}

/// A copy of the releases.
pub fn copy_releases(releases: &Vec<Release>) -> (r: Vec<Release>)
    ensures
        r@ == releases@,
{
    let mut res: Vec<Release> = Vec::new();
    let mut i: usize = 0;
    while i < releases.len()
        invariant
            0 <= i <= releases.len(),
            res@ == releases@.take(i as int),
        decreases releases.len() - i,
    {
        res.push(releases[i].clone());
        assert(res@ =~= releases@.take(i + 1));
        i = i + 1;
    }
    assert(releases@.take(i as int) =~= releases@);
    res
}

/// The position from `i` on of the first release whose version is `current`.
pub open spec fn position_of_version(releases: Seq<Release>, current: Seq<char>, i: int) -> Option<int>
    decreases releases.len() - i,
{
    if i < 0 || i >= releases.len() {
        None
    } else if releases[i].version@ == current {
        Some(i)
    } else {
        position_of_version(releases, current, i + 1)
    }
}

/// Updating the launcher itself.
pub struct SelfUpdater;

impl SelfUpdater {
    /// The fetched releases, or `None` if there are none.
    pub fn from_fetched(releases: Vec<Release>) -> (r: Option<Vec<Release>>)
        ensures
            match r {
                Some(list) => list@ == releases@ && releases@.len() > 0,
                None => releases@.len() == 0,
            },
    {
        if releases.len() == 0 {
            None
        } else {
            Some(releases)
        }
    }

    /// How many releases are newer than the running one `current`: releases
    /// are listed newest first, so this is the position of the running one;
    /// `None` when there are none or when it is not listed.
    pub fn count_new(releases_option: &Option<Vec<Release>>, current: &str) -> (r: Option<usize>)
        ensures
            match releases_option {
                Some(releases) => match r {
                    Some(n) => n > 0 && position_of_version(releases@, current@, 0) == Some(n as int),
                    None => position_of_version(releases@, current@, 0) is None
                        || position_of_version(releases@, current@, 0) == Some(0int),
                },
                None => r is None,
            },
    {
        match releases_option {
            Some(releases) => match SelfUpdater::position(releases, current) {
                Some(i) => i.return_option(),
                None => None,
            },
            None => None,
        }
    }

    /// The position of the first release whose version is `current`.
    pub fn position(releases: &Vec<Release>, current: &str) -> (r: Option<usize>)
        ensures
            match r {
                Some(j) => position_of_version(releases@, current@, 0) == Some(j as int),
                None => position_of_version(releases@, current@, 0) is None,
            },
    {
        let mut i: usize = 0;
        while i < releases.len()
            invariant
                0 <= i <= releases.len(),
                position_of_version(releases@, current@, 0) == position_of_version(
                    releases@,
                    current@,
                    i as int,
                ),
            decreases releases.len() - i,
        {
            if crate::text::same_text(releases[i].version.as_str(), current) {
                return Some(i);
            }
            i = i + 1;
        }
        None
    }
}

/// How many releases of the launcher are newer than the running one `current`.
pub fn check_self_updates(releases_option: &Option<Vec<Release>>, current: &str) -> (r: Option<usize>)
    ensures
        match releases_option {
            Some(releases) => match r {
                    Some(n) => n > 0 && position_of_version(releases@, current@, 0) == Some(n as int),
                    None => position_of_version(releases@, current@, 0) is None
                        || position_of_version(releases@, current@, 0) == Some(0int),
                },
            None => r is None,
        },
{
    SelfUpdater::count_new(releases_option, current)
}

} // verus!
