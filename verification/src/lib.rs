//! Bridge logic around a path-based PDF text-extraction primitive.
//!
//! The host makes the primitive call itself (the primitive may panic on
//! malformed documents, so the host contains it and hands back a plain
//! outcome). This library holds everything decided around that call:
//! the result and error mappings for the synchronous and task-based
//! entry points, and the staging state machine that adapts an in-memory
//! byte buffer to the path-only primitive by way of a uniquely named
//! temporary file.

use vstd::prelude::*;

pub mod errors;
pub mod extraction;
pub mod staging;
pub mod laws;
pub mod task;

verus! {

/// Module initialization hook. It keeps no state and touches nothing.
pub fn init() -> (r: Result<(), errors::ExtractError>)
    ensures
        r is Ok,
{
    Ok(())
}

} // verus!
