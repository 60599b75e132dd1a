//! Sorting and searching lists of packages.
use crate::package::{in_order, is_builder_build, same_family, same_package, ties, Package, PackageV};
use crate::releases::views;
use vstd::prelude::*;

verus! {

broadcast use vstd::seq_lib::group_to_multiset_ensures;

/// Each package may stand before the next one.
pub open spec fn sorted(s: Seq<Package>) -> bool {
    forall|i: int, j: int|
        #![trigger s[i], s[j]]
        0 <= i && j == i + 1 && j < s.len() ==> in_order(s[i]@, s[j]@)
}

/// All packages are builds of the build server, or all are releases.
pub open spec fn one_family(s: Seq<Package>) -> bool {
    forall|i: int, j: int|
        #![trigger s[i], s[j]]
        0 <= i < s.len() && 0 <= j < s.len() ==> is_builder_build(s[i].build@)
            == is_builder_build(s[j].build@)
}

/// All packages are of the family `builder`.
pub open spec fn all_of_family(s: Seq<Package>, builder: bool) -> bool {
    forall|i: int| 0 <= i < s.len() ==> is_builder_build(#[trigger] s[i].build@) == builder
}

/// The list holds a package that is the same as `p`, compared as `Vec::contains` does.
pub open spec fn holds(s: Seq<Package>, p: Package) -> bool {
    exists|i: int| 0 <= i < s.len() && same_package(#[trigger] s[i]@, p@)
}

/// Whether the list holds a package that is the same as `p`.
pub fn contains_package(list: &Vec<Package>, p: &Package) -> (r: bool)
    ensures
        r == holds(list@, *p),
{
    let mut i: usize = 0;
    while i < list.len()
        invariant
            0 <= i <= list.len(),
            forall|k: int| 0 <= k < i ==> !same_package(#[trigger] list@[k]@, p@),
        decreases list.len() - i,
    {
        if list[i] == *p {
            return true;
        }
        i = i + 1;
    }
    false
}

/// The position of the first package in the list that is the same as `p`.
pub fn position_of(list: &Vec<Package>, p: &Package) -> (r: Option<usize>)
    ensures
        match r {
            Some(i) => i < list@.len() && same_package(list@[i as int]@, p@) && forall|k: int|
                0 <= k < i ==> !same_package(#[trigger] list@[k]@, p@),
            None => !holds(list@, *p),
        },
{
    let mut i: usize = 0;
    while i < list.len()
        invariant
            0 <= i <= list.len(),
            forall|k: int| 0 <= k < i ==> !same_package(#[trigger] list@[k]@, p@),
        decreases list.len() - i,
    {
        if list[i] == *p {
            return Some(i);
        }
        i = i + 1;
    }
    None
}

/// `r` is `v` rearranged by the positions `p`: `r[t]` is `v[p[t]]`, each
/// position taken once, and two neighbours that the order ties keep the
/// order they have in `v`.
pub open spec fn stable_arrangement(v: Seq<PackageV>, r: Seq<PackageV>, p: Seq<int>) -> bool {
    &&& p.len() == r.len()
    &&& r.len() == v.len()
    &&& forall|t: int| 0 <= t < r.len() ==> 0 <= #[trigger] p[t] < v.len() && r[t] == v[p[t]]
    &&& forall|t: int, u: int| 0 <= t < u < r.len() ==> p[t] != p[u]
    &&& forall|t: int| #![trigger p[t], p[t + 1]] 0 <= t && t + 1 < r.len() && ties(r[t], r[t + 1])
        ==> p[t] < p[t + 1]
}

/// `r` is a stable rearrangement of `v` (see `stable_arrangement`).
pub open spec fn stably_rearranged(v: Seq<PackageV>, r: Seq<PackageV>) -> bool {
    exists|p: Seq<int>| stable_arrangement(v, r, p)
}

/// Sorts packages stably by the order of packages: each package goes before
/// the first one already placed that must come after it. The result holds the
/// same packages, tied ones in their order; when they are all of one family
/// it is sorted.
pub fn sort_packages(v: Vec<Package>) -> (r: Vec<Package>)
    ensures
        r@.to_multiset() == v@.to_multiset(),
        stably_rearranged(views(v@), views(r@)),
        one_family(v@) ==> sorted(r@),
{
    let ghost family: bool = if v@.len() > 0 { is_builder_build(v@[0].build@) } else { true };
    let ghost start = v@;
    let ghost mut k: int = 0;
    let ghost mut pos: Seq<int> = Seq::empty();
    let mut rest = v;
    let mut res: Vec<Package> = Vec::new();
    assert(rest@.skip(0) =~= rest@);
    while rest.len() > 0
        invariant
            res@.to_multiset().add(rest@.to_multiset()) == start.to_multiset(),
            one_family(start) ==> all_of_family(res@, family) && all_of_family(rest@, family)
                && sorted(res@),
            0 <= k <= start.len(),
            rest@ == start.skip(k),
            pos.len() == res@.len(),
            res@.len() == k,
            forall|t: int| 0 <= t < res@.len() ==> 0 <= #[trigger] pos[t] < k && res@[t] == start[pos[t]],
            forall|t: int, u: int| 0 <= t < u < res@.len() ==> pos[t] != pos[u],
            forall|t: int| #![trigger pos[t], pos[t + 1]] 0 <= t && t + 1 < res@.len() && ties(res@[t]@, res@[t + 1]@)
                ==> pos[t] < pos[t + 1],
        decreases rest.len(),
    {
        let x = rest.remove(0);
        assert(x == start[k]);
        let mut p: usize = 0;
        while p < res.len()
            invariant
                0 <= p <= res.len(),
                forall|j: int| 0 <= j < p ==> in_order(#[trigger] res@[j]@, x@),
            ensures
                0 <= p <= res.len(),
                forall|j: int| 0 <= j < p ==> in_order(#[trigger] res@[j]@, x@),
                p < res.len() ==> (same_family(res@[p as int]@, x@) ==> in_order(x@, res@[p as int]@)
                    && !ties(x@, res@[p as int]@)),
            decreases res.len() - p,
        {
            if res[p].goes_after(&x) {
                break;
            }
            p = p + 1;
        }
        proof {
            if one_family(start) && p < res.len() {
                assert(is_builder_build(x.build@) == family);
                assert(is_builder_build(res@[p as int].build@) == family);
            }
        }
        let ghost before = res@;
        let ghost old_pos = pos;
        res.insert(p, x);
        proof {
            pos = old_pos.insert(p as int, k);
            assert forall|t: int| 0 <= t < res@.len() implies 0 <= #[trigger] pos[t] < k + 1 && res@[t] == start[pos[t]] by {
                if t < p {
                    assert(res@[t] == before[t] && pos[t] == old_pos[t]);
                } else if t > p {
                    assert(res@[t] == before[t - 1] && pos[t] == old_pos[t - 1]);
                }
            }
            assert forall|t: int, u: int| 0 <= t < u < res@.len() implies pos[t] != pos[u] by {
                if t < p && u < p {
                    assert(pos[t] == old_pos[t] && pos[u] == old_pos[u]);
                } else if t < p && u > p {
                    assert(pos[t] == old_pos[t] && pos[u] == old_pos[u - 1]);
                } else if t > p {
                    assert(pos[t] == old_pos[t - 1] && pos[u] == old_pos[u - 1]);
                } else if t == p {
                    assert(pos[u] == old_pos[u - 1]);
                } else {
                    assert(pos[t] == old_pos[t]);
                }
            }
            assert forall|t: int| #![trigger pos[t], pos[t + 1]] 0 <= t && t + 1 < res@.len() && ties(res@[t]@, res@[t + 1]@)
                implies pos[t] < pos[t + 1] by {
                if t + 1 < p {
                    assert(res@[t] == before[t] && res@[t + 1] == before[t + 1]);
                    assert(pos[t] == old_pos[t] && pos[t + 1] == old_pos[t + 1]);
                } else if t + 1 == p {
                    assert(pos[t] == old_pos[t] && pos[t + 1] == k);
                } else if t == p {
                    assert(res@[t + 1] == before[t]);
                } else {
                    let j = t - 1;
                    assert(res@[t] == before[j] && res@[t + 1] == before[j + 1]);
                    assert(pos[t] == old_pos[j] && pos[t + 1] == old_pos[j + 1]);
                }
            }
            if one_family(start) {
                assert forall|i: int, j: int|
                    #![trigger res@[i], res@[j]]
                    0 <= i && j == i + 1 && j < res@.len() implies in_order(res@[i]@, res@[j]@) by {
                    if j < p {
                        assert(res@[i] == before[i] && res@[j] == before[j]);
                    } else if j == p {
                        assert(res@[i] == before[i]);
                    } else if i == p {
                        assert(res@[j] == before[i]);
                    } else {
                        assert(res@[i] == before[i - 1] && res@[j] == before[j - 1]);
                    }
                }
                assert forall|i: int| 0 <= i < res@.len() implies is_builder_build(
                    #[trigger] res@[i].build@,
                ) == family by {
                    if i < p {
                        assert(res@[i] == before[i]);
                    } else if i > p {
                        assert(res@[i] == before[i - 1]);
                    }
                }
            }
            k = k + 1;
            assert(rest@ =~= start.skip(k));
        }
    }
    proof {
        assert(stable_arrangement(views(start), views(res@), pos));
    }
    res
}

} // verus!
