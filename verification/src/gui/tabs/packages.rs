//! What the packages tab shows: which packages, in what order, and which of
//! its buttons act.
use crate::gui::filters::{shown, Filters};
use crate::gui::message::Message;
use crate::gui::package::PackageMessage;
use crate::gui::sort_by::{placed_after, tied, SortBy};
use crate::package::Package;
use crate::settings::Bookmarks;
use vstd::prelude::*;

verus! {

/// `r` lists positions of `packages` that the filters show, each once,
/// every shown one, in the order `by`, packages that the order ties kept
/// in their places.
pub open spec fn shown_in_order(packages: Seq<Package>, filters: Filters, bookmarks: Seq<Seq<char>>, by: SortBy, r: Seq<usize>) -> bool {
    &&& forall|k: int| 0 <= k < r.len() ==> #[trigger] r[k] < packages.len()
        && shown(filters, packages[r[k] as int]@, bookmarks)
    &&& forall|i: int| 0 <= i < packages.len() && shown(filters, packages[i]@, bookmarks)
        ==> r.contains(i as usize)
    &&& forall|k: int, l: int| 0 <= k < l < r.len() ==> r[k] != r[l]
    &&& in_listing_order(packages, by, r)
}

/// Each two neighbours of `r` are in the order `by`, and two that it ties
/// keep the order of their positions.
pub open spec fn in_listing_order(packages: Seq<Package>, by: SortBy, r: Seq<usize>) -> bool {
    forall|k: int| #![trigger r[k], r[k + 1]] 0 <= k && k + 1 < r.len() ==> {
        let a = packages[r[k] as int]@;
        let b = packages[r[k + 1] as int]@;
        &&& !placed_after(by, a, b)
        &&& tied(by, a, b) ==> r[k] < r[k + 1]
    }
}

/// The positions of the packages that the filters show, stably sorted by
/// `by`: the rows of the packages tab. Every package's build type has been
/// set, as merging the lists does.
pub fn shown_packages(packages: &Vec<Package>, filters: &Filters, bookmarks: &Bookmarks, by: SortBy) -> (r: Vec<usize>)
    requires
        forall|i: int| 0 <= i < packages@.len() ==> !(#[trigger] packages@[i].build_type@ is Unset),
    ensures
        shown_in_order(packages@, *filters, bookmarks@, by, r@),
{
    let mut res: Vec<usize> = Vec::new();
    let mut i: usize = 0;
    while i < packages.len()
        invariant
            0 <= i <= packages@.len(),
            forall|j: int| 0 <= j < packages@.len() ==> !(#[trigger] packages@[j].build_type@ is Unset),
            forall|k: int| 0 <= k < res@.len() ==> #[trigger] res@[k] < i
                && shown(*filters, packages@[res@[k] as int]@, bookmarks@),
            forall|j: int| 0 <= j < i && shown(*filters, packages@[j]@, bookmarks@) ==> res@.contains(j as usize),
            forall|k: int, l: int| 0 <= k < l < res@.len() ==> res@[k] != res@[l],
            in_listing_order(packages@, by, res@),
        decreases packages@.len() - i,
    {
        if filters.matches(&packages[i], bookmarks) {
            let mut pos: usize = 0;
            let mut found = false;
            while pos < res.len()
                invariant
                    0 <= pos <= res@.len(),
                    forall|k: int| 0 <= k < res@.len() ==> #[trigger] res@[k] < packages@.len(),
                    i < packages@.len(),
                    !found,
                    forall|k: int| 0 <= k < pos ==> !placed_after(by, packages@[res@[k] as int]@, packages@[i as int]@),
                ensures
                    0 <= pos <= res@.len(),
                    forall|k: int| 0 <= k < pos ==> !placed_after(by, packages@[res@[k] as int]@, packages@[i as int]@),
                    pos < res@.len() ==> !placed_after(by, packages@[i as int]@, packages@[res@[pos as int] as int]@)
                        && !tied(by, packages@[i as int]@, packages@[res@[pos as int] as int]@),
                decreases res@.len() - pos,
            {
                if by.is_after(&packages[res[pos]], &packages[i]) {
                    break;
                }
                pos = pos + 1;
            }
            let ghost before = res@;
            res.insert(pos, i);
            proof {
                assert forall|k: int| 0 <= k < res@.len() implies #[trigger] res@[k] < i + 1
                    && shown(*filters, packages@[res@[k] as int]@, bookmarks@) by {
                    if k < pos {
                        assert(res@[k] == before[k]);
                    } else if k > pos {
                        assert(res@[k] == before[k - 1]);
                    }
                }
                assert forall|j: int| 0 <= j < i + 1 && shown(*filters, packages@[j]@, bookmarks@) implies res@.contains(j as usize) by {
                    if j < i {
                        let k = choose|k: int| 0 <= k < before.len() && before[k] == j as usize;
                        if k < pos {
                            assert(res@[k] == before[k]);
                        } else {
                            assert(res@[k + 1] == before[k]);
                        }
                    } else {
                        assert(res@[pos as int] == i);
                    }
                }
                assert forall|k: int, l: int| 0 <= k < l < res@.len() implies res@[k] != res@[l] by {
                    if k == pos {
                        assert(res@[l] == before[l - 1]);
                    } else if l == pos {
                        assert(res@[k] == before[k]);
                    } else if k < pos && l < pos {
                        assert(res@[k] == before[k] && res@[l] == before[l]);
                    } else if k < pos {
                        assert(res@[k] == before[k] && res@[l] == before[l - 1]);
                    } else {
                        assert(res@[k] == before[k - 1] && res@[l] == before[l - 1]);
                    }
                }
                assert forall|k: int| #![trigger res@[k], res@[k + 1]] 0 <= k && k + 1 < res@.len() implies {
                    let a = packages@[res@[k] as int]@;
                    let b = packages@[res@[k + 1] as int]@;
                    &&& !placed_after(by, a, b)
                    &&& tied(by, a, b) ==> res@[k] < res@[k + 1]
                } by {
                    if k + 1 < pos {
                        assert(res@[k] == before[k] && res@[k + 1] == before[k + 1]);
                        assert(in_listing_order(packages@, by, before));
                        assert(before[k] < packages@.len());
                    } else if k + 1 == pos {
                        assert(res@[k] == before[k] && res@[k + 1] == i);
                        assert(before[k] < i);
                    } else if k == pos {
                        assert(res@[k] == i && res@[k + 1] == before[k]);
                    } else {
                        let j = k - 1;
                        assert(res@[k] == before[j] && res@[k + 1] == before[j + 1]);
                        assert(0 <= j && j + 1 < before.len());
                    }
                }
            }
        }
        i = i + 1;
    }
    res
}

/// The message of the button that opens the default package, where one is set.
pub fn open_default_message(default_package: &Option<Package>) -> (r: Option<Message>)
    ensures
        match default_package {
            Some(p) => r matches Some(Message::OpenBlender(n)) && n@ == p.name@,
            None => r is None,
        },
{
    match default_package {
        Some(p) => Some(Message::OpenBlender(p.name.clone())),
        None => None,
    }
}

/// The message of the button that opens the selected file with the default
/// package, where a file is selected and a default package is set.
pub fn open_default_with_file_message(default_package: &Option<Package>, file_path: &Option<String>) -> (r: Option<Message>)
    ensures
        match default_package {
            Some(p) => if file_path is Some {
                r matches Some(Message::OpenBlenderWithFile(n)) && n@ == p.name@
            } else {
                r is None
            },
            None => r is None,
        },
{
    match default_package {
        Some(p) => if file_path.is_some() {
            Some(Message::OpenBlenderWithFile(p.name.clone()))
        } else {
            None
        },
        None => None,
    }
}

/// What the tab says in place of an empty list: that lists are being
/// fetched, or that there are no packages.
pub fn empty_list_text(fetching: bool) -> (r: &'static str)
    ensures
        fetching ==> r@ == "Fetching..."@,
        !fetching ==> r@ == "No packages"@,
{
    if fetching {
        "Fetching..."
    } else {
        "No packages"
    }
}

/// The message that a button of the row `k` of the shown packages sends:
/// the row's package message, with the index of the package it shows.
pub fn row_message(packages: &Vec<Package>, shown: &Vec<usize>, k: usize, m: PackageMessage) -> (r: Message)
    requires
        k < shown@.len(),
        shown@[k as int] < packages@.len(),
    ensures
        r == Message::PackageMessage((packages@[shown@[k as int] as int].index, m)),
{
    Message::PackageMessage((packages[shown[k]].index, m))
}

/// Whether the row `k` of the shown packages (counted from 0) takes the
/// style of odd rows: exactly when its number counted from 1 is odd.
pub fn row_is_odd(k: usize) -> (r: bool)
    ensures
        r == ((k + 1) % 2 == 1),
{
    k % 2 == 0
}

} // verus!
