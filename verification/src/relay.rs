//! Limits shared by the relaying loops.
use vstd::prelude::*;

verus! {

/// How many times each phase of a handshake is attempted before it is given up.
pub const MAX_ITER: u32 = 10;

} // verus!
