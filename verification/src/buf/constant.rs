use vstd::prelude::*;

verus! {

/// Smallest capacity a stream is created with, and the floor of its size limit.
pub const DEFAULT_BUFFER_MIN_SIZE: usize = 1024;

/// Size limit a new stream starts with.
pub const DEFAULT_BUFFER_MAX_SIZE: usize = 1048576;

} // verus!
