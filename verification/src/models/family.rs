//! Families: groups of members sharing an address.
use vstd::prelude::*;

verus! {

/// A family.
#[derive(Clone, Debug, PartialEq)]
pub struct Family {
    pub id: String,
    pub name: String,
    pub common_address: Option<String>,
    pub note: Option<String>,
    pub created_at: i64,
}

/// The fields of a family about to be created.
#[derive(Clone, Debug, PartialEq)]
pub struct NewFamily {
    pub name: String,
    pub common_address: Option<String>,
    pub note: Option<String>,
}

} // verus!
