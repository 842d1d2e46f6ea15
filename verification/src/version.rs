//! The order of two versions, as `semver` reads them.

use std::cmp::Ordering;
use vstd::prelude::*;

verus! {

/// Where a version stands against another.
#[derive(Clone, Copy, Debug, PartialEq, Eq, Structural)]
pub enum VersionOrder {
    Older,
    Same,
    Newer,
}

/// Where `semver` puts the first version against the second; nothing where
/// one of the two texts is not a version.
pub uninterp spec fn version_order(first: Seq<char>, second: Seq<char>) -> Option<VersionOrder>;

/// `semver::Version::parse` on both texts, then the versions' `cmp`. A text
/// that does not parse is an error there, and nothing here.
#[verifier::external_body]
pub(crate) fn compare_versions(first: &str, second: &str) -> (order: Option<VersionOrder>)
    ensures
        order == version_order(first@, second@),
{
    match (semver::Version::parse(first), semver::Version::parse(second)) {
        (Ok(a), Ok(b)) => Some(
            match a.cmp(&b) {
                Ordering::Less => VersionOrder::Older,
                Ordering::Equal => VersionOrder::Same,
                Ordering::Greater => VersionOrder::Newer,
            },
        ),
        _ => None,
    }
}

} // verus!
