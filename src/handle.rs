use vstd::prelude::*;

verus! {

/// Read-only access to the raw session handle that a value owns, for use as
/// the argument of one subsystem call. The handle is never null and stays
/// the same for as long as the value lives.
pub trait Handle {
    /// The handle owned by this value.
    spec fn raw(&self) -> usize;

    fn as_ptr(&self) -> (r: usize)
        ensures
            r == self.raw(),
            r != 0,
    ;
}

} // verus!
