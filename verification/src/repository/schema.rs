//! Schema versions.
use vstd::prelude::*;

verus! {

/// The newest schema version.
pub const SCHEMA_VERSION: u32 = 3;

/// The migrations a database at schema `version` still needs, oldest first:
/// every version above it up to the newest.
pub fn pending_migrations(version: u32) -> (r: Vec<u32>)
    ensures
        r@ == Seq::new((if version < SCHEMA_VERSION { SCHEMA_VERSION - version } else { 0 }) as nat, |i: int| (version + 1 + i) as u32),
{
    let mut out: Vec<u32> = Vec::new();
    let mut v: u32 = 1;
    while v <= SCHEMA_VERSION
        invariant
            1 <= v <= SCHEMA_VERSION + 1,
            out@ == Seq::new((if version + 1 < v { v - 1 - version } else { 0 }) as nat, |i: int| (version + 1 + i) as u32),
        decreases SCHEMA_VERSION + 1 - v,
    {
        if version < v {
            out.push(v);
        }
        v = v + 1;
    }
    out
}

} // verus!
