use crate::account::{Account, RefCount};
use crate::error::Error;
use crate::handle::Handle;
use std::marker::PhantomData;
use std::rc::Rc;
use vstd::prelude::*;

verus! {

/// One owner of a session with the device subsystem.
///
/// A session must not be used by two threads at once, and every owner of it
/// shares one reference count, so a `Context` is neither `Send` nor `Sync`:
/// the marker field makes the compiler reject both kinds of crossing.
pub struct Context {
    udev: usize,
    confined: PhantomData<Rc<()>>,
}

impl Context {
    #[verifier::type_invariant]
    spec fn non_null(self) -> bool {
        self.udev != 0
    }

    /// The session handle this owner holds.
    pub closed spec fn session(self) -> usize {
        self.udev
    }

    /// Takes ownership of the handle that the subsystem's session-creation
    /// call returned. A null handle means that the subsystem could not
    /// allocate the session: no owner comes into being, and nothing is left
    /// to release.
    pub fn new(session: usize) -> (r: Result<(Context, RefCount), Error>)
        ensures
            session == 0 <==> r is Err,
            r is Err ==> r == Err::<(Context, RefCount), Error>(Error::Allocation),
            r matches Ok((c, count)) ==> c.session() == session && count@ == Account::opened(
                session,
            ),
    {
        if session == 0 {
            Err(Error::Allocation)
        } else {
            let count = RefCount::opened(session);
            Ok((Context { udev: session, confined: PhantomData }, count))
        }
    }

    /// A second, independent owner of the same session. The caller issues
    /// the subsystem's increment on the handle alongside.
    pub fn duplicate(&self, count: &mut RefCount) -> (r: Context)
        requires
            self.session() == old(count)@.handle,
            !old(count)@.freed(),
            old(count)@.outstanding() < u64::MAX,
        ensures
            r.session() == self.session(),
            final(count)@ == old(count)@.duplicated(),
    {
        proof {
            use_type_invariant(self);
        }
        count.acquire();
        Context { udev: self.udev, confined: PhantomData }
    }

    /// Ends this owner: exactly one decrement is due for it, which the caller
    /// issues on the handle. Returns true when no owner is left, so that the
    /// decrement frees the session.
    pub fn destroy(self, count: &mut RefCount) -> (last: bool)
        requires
            self.session() == old(count)@.handle,
            !old(count)@.freed(),
        ensures
            final(count)@ == old(count)@.destroyed(),
            last == final(count)@.freed(),
    {
        count.release()
    }
}

impl Handle for Context {
    open spec fn raw(&self) -> usize {
        self.session()
    }

    fn as_ptr(&self) -> (r: usize) {
        proof {
            use_type_invariant(self);
        }
        self.udev
    }
}

} // verus!
