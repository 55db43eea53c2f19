//! The schema of the catalogue: which migrations a database still needs.

use vstd::prelude::*;

verus! {

/// The version of the schema that this library works with.
pub const SCHEMA_VERSION: i32 = 2;

/// The migrations that a database at `current` still needs, in order: every
/// version above `current` up to the schema version.
pub open spec fn pending(current: int) -> Seq<i32> {
    if current < 1 {
        seq![1i32, 2i32]
    } else if current < 2 {
        seq![2i32]
    } else {
        seq![]
    }
}

/// The migrations that a database at version `current` still needs.
pub fn pending_migrations(current: i32) -> (r: Vec<i32>)
    ensures
        r@ == pending(current as int),
{
    let mut out: Vec<i32> = Vec::new();
    if current < 1 {
        out.push(1);
    }
    if current < SCHEMA_VERSION {
        out.push(SCHEMA_VERSION);
    }
    out
}

} // verus!
