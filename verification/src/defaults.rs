//! Sensible defaults used elsewhere in the crate.

use vstd::prelude::*;

verus! {

/// Number of frames allowed to be in flight at once.
pub const FRAMES_IN_FLIGHT: usize = 2;

} // verus!
