//! Version numbers of packages, read and compared by the `versions` crate.
use std::cmp::Ordering;
use versions::Versioning;
use vstd::prelude::*;

verus! {

/// How `versions` orders the two version texts, each read by `Versioning::new`
/// (a text it cannot read comes before any it can).
pub uninterp spec fn version_order(a: Seq<char>, b: Seq<char>) -> Ordering;

/// Whether `versions` reads the two texts as the same version.
pub uninterp spec fn versions_equal(a: Seq<char>, b: Seq<char>) -> bool;

/// The `n`-th numeric part of the version text as `versions` reads it, if any.
pub uninterp spec fn version_part(v: Seq<char>, n: int) -> Option<u32>;

/// Whether `versions` can read the text as a version (`Versioning::new`
/// gives `Some`).
pub uninterp spec fn readable_version(v: Seq<char>) -> bool;

/// The opposite order.
pub open spec fn reversed(o: Ordering) -> Ordering {
    match o {
        Ordering::Less => Ordering::Greater,
        Ordering::Equal => Ordering::Equal,
        Ordering::Greater => Ordering::Less,
    }
}

/// The opposite order, as `Ordering::reverse` gives it.
pub fn reverse(o: Ordering) -> (r: Ordering)
    ensures
        r == reversed(o),
{
    match o {
        Ordering::Less => Ordering::Greater,
        Ordering::Equal => Ordering::Equal,
        Ordering::Greater => Ordering::Less,
    }
}

/// `Ord::cmp` of `Option<Versioning>` on the two texts read by `Versioning::new`.
/// Claimed: the result is `version_order` of the texts, and swapping the texts
/// reverses it (the antisymmetry that `Ord` asks of `Versioning`, whose source
/// reverses each mixed comparison explicitly).
#[verifier::external_body]
pub(crate) fn compare_versions(a: &str, b: &str) -> (r: Ordering)
    ensures
        r == version_order(a@, b@),
        version_order(b@, a@) == reversed(r),
{
    Versioning::new(a).cmp(&Versioning::new(b))
}

/// `==` of `Option<Versioning>` on the two texts read by `Versioning::new`.
/// Claimed: the result is `versions_equal` of the texts; it is symmetric, and
/// a text equals itself (the derived and field-wise `PartialEq` impls of the source).
#[verifier::external_body]
pub(crate) fn same_version(a: &str, b: &str) -> (r: bool)
    ensures
        r == versions_equal(a@, b@),
        versions_equal(b@, a@) == r,
        a@ == b@ ==> r,
{
    Versioning::new(a) == Versioning::new(b)
}

/// `Versioning::nth(n)` of the text read by `Versioning::new`, or `None` when
/// the text cannot be read. Claimed: the result is `version_part` of the text and `n`.
#[verifier::external_body]
pub(crate) fn version_nth(v: &str, n: usize) -> (r: Option<u32>)
    ensures
        r == version_part(v@, n as int),
{
    match Versioning::new(v) {
        Some(parsed) => parsed.nth(n),
        None => None,
    }
}

/// Whether `Versioning::new` reads the text as a version. Claimed: the
/// result is `readable_version` of the text.
#[verifier::external_body]
pub(crate) fn is_version(v: &str) -> (r: bool)
    ensures
        r == readable_version(v@),
{
    Versioning::new(v).is_some()
}

} // verus!
