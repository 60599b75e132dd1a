//! Files recently opened with a package.
use crate::paths::{file_name, file_name_of};
use vstd::prelude::*;

verus! {

broadcast use vstd::seq_lib::group_to_multiset_ensures;

/// A file opened with a package: its name and path, the package it was
/// last opened with, and when (seconds since the Unix epoch).
pub struct RecentFile {
    pub name: String,
    pub path: String,
    pub last_opened_with: String,
    pub last_opened_on: i64,
}

/// The mathematical value of a `RecentFile`.
pub struct RecentFileV {
    pub name: Seq<char>,
    pub path: Seq<char>,
    pub last_opened_with: Seq<char>,
    pub last_opened_on: i64,
}

impl View for RecentFile {
    type V = RecentFileV;

    open spec fn view(&self) -> RecentFileV {
        RecentFileV {
            name: self.name@,
            path: self.path@,
            last_opened_with: self.last_opened_with@,
            last_opened_on: self.last_opened_on,
        }
    }
}

impl Clone for RecentFile {
    fn clone(&self) -> (r: RecentFile)
        ensures
            r == *self,
    {
        RecentFile {
            name: self.name.clone(),
            path: self.path.clone(),
            last_opened_with: self.last_opened_with.clone(),
            last_opened_on: self.last_opened_on,
        }
    }
}

impl RecentFile {
    /// The record of opening the file at `path` with the package
    /// `last_opened_with` at time `now`. The path must have a file name.
    pub fn new(path: &str, last_opened_with: String, now: i64) -> (r: RecentFile)
        requires
            file_name_of(path@) is Some,
        ensures
            Some(r.name@) == file_name_of(path@),
            r.path@ == path@,
            r.last_opened_with == last_opened_with,
            r.last_opened_on == now,
    {
        let name = match file_name(path) {
            Some(name) => name,
            None => String::new(),
        };
        RecentFile { name, path: String::from_str(path), last_opened_with, last_opened_on: now }
    }

    /// The record of opening the file at `path`, or `None` when the path has
    /// no file name.
    pub fn try_new(path: &str, last_opened_with: String, now: i64) -> (r: Option<RecentFile>)
        ensures
            match r {
                Some(f) => Some(f.name@) == file_name_of(path@) && f.path@ == path@
                    && f.last_opened_with == last_opened_with && f.last_opened_on == now,
                None => file_name_of(path@) is None,
            },
    {
        match file_name(path) {
            Some(_) => Some(RecentFile::new(path, last_opened_with, now)),
            None => None,
        }
    }
}

/// No two records are of the same path.
pub open spec fn unique_paths(s: Seq<RecentFile>) -> bool {
    forall|i: int, j: int|
        0 <= i < s.len() && 0 <= j < s.len() && i != j ==> s[i].path@ != s[j].path@
}

/// The records, newest first.
pub open spec fn newest_first(s: Seq<RecentFile>) -> bool {
    forall|i: int, j: int| 0 <= i < j < s.len() ==> s[i].last_opened_on >= s[j].last_opened_on
}

/// The recently opened files, one record per path.
pub struct RecentFiles(pub Vec<RecentFile>);

impl Default for RecentFiles {
    fn default() -> (r: RecentFiles)
        ensures
            r.0@ == Seq::<RecentFile>::empty(),
    {
        RecentFiles(Vec::new())
    }
}

impl RecentFiles {
    /// The position of the record of `path`.
    pub fn position(&self, path: &str) -> (r: Option<usize>)
        ensures
            match r {
                Some(i) => i < self.0@.len() && self.0@[i as int].path@ == path@,
                None => forall|k: int| 0 <= k < self.0@.len() ==> self.0@[k].path@ != path@,
            },
    {
        let mut i: usize = 0;
        while i < self.0.len()
            invariant
                0 <= i <= self.0.len(),
                forall|k: int| 0 <= k < i ==> self.0@[k].path@ != path@,
            decreases self.0.len() - i,
        {
            if crate::text::same_text(self.0[i].path.as_str(), path) {
                return Some(i);
            }
            i = i + 1;
        }
        None
    }

    /// Whether no path is recorded twice.
    pub fn has_unique_paths(&self) -> (r: bool)
        ensures
            r == unique_paths(self.0@),
    {
        let mut i: usize = 0;
        while i < self.0.len()
            invariant
                0 <= i <= self.0.len(),
                forall|a: int, b: int| 0 <= a < i && 0 <= b < self.0@.len() && a != b ==> self.0@[a].path@ != self.0@[b].path@,
            decreases self.0.len() - i,
        {
            let mut j: usize = 0;
            while j < self.0.len()
                invariant
                    0 <= i < self.0.len(),
                    0 <= j <= self.0.len(),
                    forall|b: int| 0 <= b < j && b != i ==> self.0@[i as int].path@ != self.0@[b].path@,
                decreases self.0.len() - j,
            {
                if j != i && crate::text::same_text(self.0[i].path.as_str(), self.0[j].path.as_str()) {
                    return false;
                }
                j = j + 1;
            }
            i = i + 1;
        }
        true
    }

    /// Records the file, replacing an earlier record of the same path.
    pub fn insert(&mut self, file: RecentFile)
        requires
            unique_paths(old(self).0@),
        ensures
            unique_paths(final(self).0@),
            match old(self).position_spec(file.path@) {
                Some(i) => final(self).0@ == old(self).0@.update(i, file),
                None => final(self).0@ == old(self).0@.push(file),
            },
    {
        let ghost start = self.0@;
        match self.position(file.path.as_str()) {
            Some(i) => {
                proof {
                    assert(self.position_spec(file.path@) == Some(i as int));
                }
                self.0.set(i, file);
                proof {
                    assert forall|a: int, b: int|
                        0 <= a < self.0@.len() && 0 <= b < self.0@.len() && a != b implies self.0@[a].path@
                        != self.0@[b].path@ by {
                        if a != i && b != i {
                            assert(self.0@[a] == start[a] && self.0@[b] == start[b]);
                        } else if a == i {
                            assert(self.0@[b] == start[b]);
                        } else {
                            assert(self.0@[a] == start[a]);
                        }
                    }
                }
            },
            None => {
                self.0.push(file);
                proof {
                    assert forall|a: int, b: int|
                        0 <= a < self.0@.len() && 0 <= b < self.0@.len() && a != b implies self.0@[a].path@
                        != self.0@[b].path@ by {
                        if a < start.len() && b < start.len() {
                            assert(self.0@[a] == start[a] && self.0@[b] == start[b]);
                        } else if a == start.len() {
                            assert(self.0@[b] == start[b]);
                        } else {
                            assert(self.0@[a] == start[a]);
                        }
                    }
                }
            },
        }
    }

    /// The position of the record of `path`, if there is one.
    pub open spec fn position_spec(&self, path: Seq<char>) -> Option<int> {
        if exists|i: int| 0 <= i < self.0@.len() && self.0@[i].path@ == path {
            Some(choose|i: int| 0 <= i < self.0@.len() && self.0@[i].path@ == path)
        } else {
            None
        }
    }

    /// Takes away the record of `path`, if there is one.
    pub fn remove(&mut self, path: &str)
        requires
            unique_paths(old(self).0@),
        ensures
            unique_paths(final(self).0@),
            match old(self).position_spec(path@) {
                Some(i) => final(self).0@ == old(self).0@.remove(i),
                None => final(self).0@ == old(self).0@,
            },
    {
        let ghost start = self.0@;
        match self.position(path) {
            Some(i) => {
                proof {
                    let j = choose|j: int| 0 <= j < start.len() && start[j].path@ == path@;
                    assert(j == i);
                }
                self.0.remove(i);
                proof {
                    assert forall|a: int, b: int|
                        0 <= a < self.0@.len() && 0 <= b < self.0@.len() && a != b implies self.0@[a].path@
                        != self.0@[b].path@ by {
                        let a0 = if a < i { a } else { a + 1 };
                        let b0 = if b < i { b } else { b + 1 };
                        assert(self.0@[a] == start[a0] && self.0@[b] == start[b0]);
                    }
                }
            },
            None => {},
        }
    }

    /// The records, newest first; records opened at the same moment come
    /// in no promised order, as walking a map of records by path leaves them.
    pub fn to_vec(&self) -> (r: Vec<RecentFile>)
        ensures
            r@.to_multiset() == self.0@.to_multiset(),
            newest_first(r@),
    {
        let mut res: Vec<RecentFile> = Vec::new();
        let mut k: usize = 0;
        while k < self.0.len()
            invariant
                0 <= k <= self.0.len(),
                res@.to_multiset() == self.0@.take(k as int).to_multiset(),
                newest_first(res@),
            decreases self.0.len() - k,
        {
            let f = self.0[k].clone();
            let mut p: usize = 0;
            while p < res.len()
                invariant
                    0 <= p <= res.len(),
                    forall|i: int| 0 <= i < p ==> res@[i].last_opened_on > f.last_opened_on,
                ensures
                    0 <= p <= res.len(),
                    forall|i: int| 0 <= i < p ==> res@[i].last_opened_on > f.last_opened_on,
                    p < res.len() ==> res@[p as int].last_opened_on <= f.last_opened_on,
                decreases res.len() - p,
            {
                if res[p].last_opened_on <= f.last_opened_on {
                    break;
                }
                p = p + 1;
            }
            let ghost before = res@;
            res.insert(p, f);
            proof {
                assert(self.0@.take(k + 1) =~= self.0@.take(k as int).push(self.0@[k as int]));
                assert forall|i: int, j: int| 0 <= i < j < res@.len() implies res@[i].last_opened_on
                    >= res@[j].last_opened_on by {
                    if j < p {
                        assert(res@[i] == before[i] && res@[j] == before[j]);
                    } else if j == p {
                        assert(res@[i] == before[i]);
                    } else if i == p {
                        assert(res@[j] == before[j - 1]);
                        if j - 1 > p {
                            assert(before[p as int].last_opened_on >= before[j - 1].last_opened_on);
                        }
                    } else if i < p {
                        assert(res@[i] == before[i] && res@[j] == before[j - 1]);
                    } else {
                        assert(res@[i] == before[i - 1] && res@[j] == before[j - 1]);
                    }
                }
            }
            k = k + 1;
        }
        assert(self.0@.take(k as int) =~= self.0@);
        res
    }
}

/// What can be done with a recent file.
pub enum RecentFileMessage {
    OpenWithLastBlender(String),
    OpenWithDefaultBlender,
    Select,
    Remove,
}

} // verus!
