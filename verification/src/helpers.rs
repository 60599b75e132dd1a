//! Small rules used across the launcher.
use crate::paths::{file_stem, file_stem_of};
use crate::settings::Settings;
use crate::text::{contains, has_infix};
use vstd::prelude::*;

verus! {

/// The name of a package taken from its archive's file name: the file stem,
/// taken twice for `.tar.` archives (`blender-x.tar.xz` gives `blender-x`).
pub open spec fn package_stem(filename: Seq<char>) -> Option<Seq<char>> {
    match file_stem_of(filename) {
        Some(stem) => if has_infix(filename, ".tar."@) {
            file_stem_of(stem)
        } else {
            Some(stem)
        },
        None => None,
    }
}

/// The name of a package taken from its archive's file name. The file name
/// must have a stem (and, for `.tar.` archives, so must the stem).
pub fn get_file_stem(filename: &str) -> (r: String)
    requires
        package_stem(filename@) is Some,
    ensures
        Some(r@) == package_stem(filename@),
{
    let tar = contains(filename, ".tar.");
    proof {
        reveal_strlit(".tar.");
    }
    let stem = file_stem(filename);
    match stem {
        Some(stem) => {
            if tar {
                match file_stem(stem.as_str()) {
                    Some(inner) => inner,
                    None => stem,
                }
            } else {
                stem
            }
        },
        None => String::new(),
    }
}

/// The name of a package taken from its archive's file name, or `None`
/// where the file name (or, for `.tar.` archives, its stem) has no stem.
pub fn try_get_file_stem(filename: &str) -> (r: Option<String>)
    ensures
        match r {
            Some(s) => Some(s@) == package_stem(filename@),
            None => package_stem(filename@) is None,
        },
{
    let tar = contains(filename, ".tar.");
    proof {
        reveal_strlit(".tar.");
    }
    match file_stem(filename) {
        Some(stem) => {
            if tar {
                match file_stem(stem.as_str()) {
                    Some(_) => Some(get_file_stem(filename)),
                    None => None,
                }
            } else {
                Some(get_file_stem(filename))
            }
        },
        None => None,
    }
}

/// Whether enough minutes have passed since the last check for updates.
/// `now` counts seconds since the Unix epoch and is not before that check.
pub fn is_time_to_update(settings: &Settings, now: u64) -> (r: bool)
    requires
        now >= settings.last_update_time,
    ensures
        r == ((now - settings.last_update_time) / 60 >= settings.minutes_between_updates),
{
    (now - settings.last_update_time) / 60 >= settings.minutes_between_updates
}

/// A value that stands for nothing when it is the default.
pub trait ReturnOption: Sized {
    /// `None` for the default value, the value itself otherwise.
    fn return_option(self) -> Option<Self>;
}

impl ReturnOption for usize {
    fn return_option(self) -> (r: Option<usize>)
        ensures
            r == (if self == 0 { None } else { Some(self) }),
    {
        if self == 0 {
            None
        } else {
            Some(self)
        }
    }
}

} // verus!
