use vstd::prelude::*;

verus! {

/// The shared-memory buffer extension. Pools and buffers are handled by the
/// transport; the library keeps no state for them.
#[derive(Debug)]
pub struct Shm {}

impl Shm {
    pub fn new() -> (r: Shm) {
        Shm {}
    }
}

} // verus!
