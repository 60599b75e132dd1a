//! The orders in which the packages tab lists packages.
use crate::package::{date_order, ordering_of, Package, PackageV};
use crate::text::{compare_text, lemma_lex_order_antisymmetric, lex_order};
use crate::version::{compare_versions, reverse, reversed, version_order};
use std::cmp::Ordering;
use vstd::prelude::*;

verus! {

/// An order of the packages tab.
#[derive(Clone, Copy, Debug, PartialEq, Eq, Structural)]
pub enum SortBy {
    NameAscending,
    NameDescending,
    DateAscending,
    DateDescending,
    VersionAscending,
    VersionDescending,
}

/// How `by` orders two packages: by name (as texts), by date or by version,
/// ascending or descending.
pub open spec fn listing_order(by: SortBy, a: PackageV, b: PackageV) -> Ordering {
    match by {
        SortBy::NameAscending => ordering_of(lex_order(a.name, b.name)),
        SortBy::NameDescending => reversed(ordering_of(lex_order(a.name, b.name))),
        SortBy::DateAscending => date_order(a.date, b.date),
        SortBy::DateDescending => reversed(date_order(a.date, b.date)),
        SortBy::VersionAscending => version_order(a.version, b.version),
        SortBy::VersionDescending => reversed(version_order(a.version, b.version)),
    }
}

/// The order `by` places `a` after `b`.
pub open spec fn placed_after(by: SortBy, a: PackageV, b: PackageV) -> bool {
    listing_order(by, a, b) == Ordering::Greater
}

/// The order `by` ties `a` and `b`.
pub open spec fn tied(by: SortBy, a: PackageV, b: PackageV) -> bool {
    listing_order(by, a, b) == Ordering::Equal
}

impl SortBy {
    /// Whether this order places `a` after `b`; if it does, it places `b`
    /// before `a`.
    pub fn is_after(&self, a: &Package, b: &Package) -> (r: bool)
        ensures
            r == placed_after(*self, a@, b@),
            r ==> !placed_after(*self, b@, a@) && !tied(*self, b@, a@),
    {
        match self.get_ordering(a, b) {
            Ordering::Greater => true,
            _ => false,
        }
    }

    /// All orders, in the order they are offered.
    pub fn all() -> (r: Vec<SortBy>)
        ensures
            r@ == seq![
                SortBy::NameAscending,
                SortBy::NameDescending,
                SortBy::DateAscending,
                SortBy::DateDescending,
                SortBy::VersionAscending,
                SortBy::VersionDescending,
            ],
    {
        vec![
            SortBy::NameAscending,
            SortBy::NameDescending,
            SortBy::DateAscending,
            SortBy::DateDescending,
            SortBy::VersionAscending,
            SortBy::VersionDescending,
        ]
    }

    /// How this order places `a` against `b`; swapping them reverses it.
    pub fn get_ordering(&self, a: &Package, b: &Package) -> (r: Ordering)
        ensures
            r == listing_order(*self, a@, b@),
            listing_order(*self, b@, a@) == reversed(r),
    {
        proof {
            lemma_lex_order_antisymmetric(a.name@, b.name@);
        }
        let by_name = compare_text(a.name.as_str(), b.name.as_str());
        let name = if by_name < 0 {
            Ordering::Less
        } else if by_name == 0 {
            Ordering::Equal
        } else {
            Ordering::Greater
        };
        let date = if a.date < b.date {
            Ordering::Less
        } else if a.date == b.date {
            Ordering::Equal
        } else {
            Ordering::Greater
        };
        match self {
            SortBy::NameAscending => name,
            SortBy::NameDescending => reverse(name),
            SortBy::DateAscending => date,
            SortBy::DateDescending => reverse(date),
            SortBy::VersionAscending => compare_versions(a.version.as_str(), b.version.as_str()),
            SortBy::VersionDescending => reverse(
                compare_versions(a.version.as_str(), b.version.as_str()),
            ),
        }
    }

    /// The name of the order as it is shown.
    pub fn label(&self) -> (r: &'static str)
        ensures
            *self == SortBy::NameAscending ==> r@ == " Name [A]"@,
            *self == SortBy::NameDescending ==> r@ == " Name [D]"@,
            *self == SortBy::DateAscending ==> r@ == " Date [A]"@,
            *self == SortBy::DateDescending ==> r@ == " Date [D]"@,
            *self == SortBy::VersionAscending ==> r@ == " Version [A]"@,
            *self == SortBy::VersionDescending ==> r@ == " Version [D]"@,
    {
        match self {
            SortBy::NameAscending => " Name [A]",
            SortBy::NameDescending => " Name [D]",
            SortBy::DateAscending => " Date [A]",
            SortBy::DateDescending => " Date [D]",
            SortBy::VersionAscending => " Version [A]",
            SortBy::VersionDescending => " Version [D]",
        }
    }
}

impl Default for SortBy {
    fn default() -> (r: SortBy)
        ensures
            r == SortBy::VersionDescending,
    {
        SortBy::VersionDescending
    }
}

} // verus!
