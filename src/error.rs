use vstd::prelude::*;

verus! {

/// The one way a lifecycle operation can fail: the subsystem could not
/// allocate a new resource and handed back a null handle.
#[derive(Debug, Clone, Copy, PartialEq, Eq, Structural)]
pub enum Error {
    Allocation,
}

} // verus!
