use vstd::prelude::*;

verus! {

/// The maximum number of frames that can be processed concurrently.
pub const MAX_FRAMES_IN_FLIGHT: usize = 2;

} // verus!
