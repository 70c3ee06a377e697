use vstd::prelude::*;

verus! {

/// A kernel-reported failure, carried as the raw OS error code (errno) that
/// the failing call returned.
#[derive(Clone, Copy, Debug, PartialEq, Eq, Structural)]
pub struct OsError {
    pub code: i32,
}

} // verus!
