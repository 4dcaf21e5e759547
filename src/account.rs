use vstd::prelude::*;

verus! {

/// What this layer has done to one session's reference count: how many
/// owning values it has handed out (the construction and every duplicate)
/// and how many of them it has destroyed.
pub struct Account {
    pub handle: usize,
    pub acquired: nat,
    pub released: nat,
}

/// One lifecycle operation on an owner of a session.
pub enum Step {
    Duplicate,
    Destroy,
}

impl Account {
    /// The account right after a successful construction.
    pub open spec fn opened(handle: usize) -> Account {
        Account { handle, acquired: 1, released: 0 }
    }

    pub open spec fn wf(self) -> bool {
        &&& self.handle != 0
        &&& 1 <= self.acquired
        &&& self.released <= self.acquired
    }

    /// Owning values that are live: handed out and not yet destroyed.
    pub open spec fn outstanding(self) -> nat {
        (self.acquired - self.released) as nat
    }

    /// Every owner is gone; the subsystem has freed the session.
    pub open spec fn freed(self) -> bool {
        self.released == self.acquired
    }

    pub open spec fn duplicated(self) -> Account {
        Account { acquired: self.acquired + 1, ..self }
    }

    pub open spec fn destroyed(self) -> Account {
        Account { released: self.released + 1, ..self }
    }

    pub open spec fn step(self, s: Step) -> Account {
        match s {
            Step::Duplicate => self.duplicated(),
            Step::Destroy => self.destroyed(),
        }
    }

    /// The account after each of `steps` in turn.
    pub open spec fn run(self, steps: Seq<Step>) -> Account
        decreases steps.len(),
    {
        if steps.len() == 0 {
            self
        } else {
            self.run(steps.drop_last()).step(steps.last())
        }
    }

    /// Each of `steps` is taken while some owner is still live, as every
    /// operation needs a live owner to act on.
    pub open spec fn permits(self, steps: Seq<Step>) -> bool {
        forall|i: int| 0 <= i < steps.len() ==> !(#[trigger] self.run(steps.take(i))).freed()
    }

    /// How many of `steps` were a destroy that left the session freed.
    pub open spec fn releases(self, steps: Seq<Step>) -> nat
        decreases steps.len(),
    {
        if steps.len() == 0 {
            0
        } else {
            self.releases(steps.drop_last()) + if steps.last() is Destroy && self.run(
                steps,
            ).freed() {
                1nat
            } else {
                0nat
            }
        }
    }
}

/// How many of `steps` are `kind`.
pub open spec fn occurrences(steps: Seq<Step>, kind: Step) -> nat
    decreases steps.len(),
{
    if steps.len() == 0 {
        0
    } else {
        occurrences(steps.drop_last(), kind) + if steps.last() == kind {
            1nat
        } else {
            0nat
        }
    }
}

/// Running steps from any account adds one acquisition per duplicate and
/// one release per destroy.
pub proof fn lemma_run_counts(a: Account, steps: Seq<Step>)
    ensures
        a.run(steps).handle == a.handle,
        a.run(steps).acquired == a.acquired + occurrences(steps, Step::Duplicate),
        a.run(steps).released == a.released + occurrences(steps, Step::Destroy),
    decreases steps.len(),
{
    if steps.len() > 0 {
        lemma_run_counts(a, steps.drop_last());
    }
}

/// Refcount conservation. Along any run of duplicates and destroys that
/// starts at one construction and acts only while an owner is live, the
/// destroys never outnumber the construction and the duplicates, and the
/// session is freed exactly once, by the destroy that makes them equal.
pub proof fn lemma_conservation(handle: usize, steps: Seq<Step>)
    requires
        handle != 0,
        Account::opened(handle).permits(steps),
    ensures
        Account::opened(handle).run(steps).wf(),
        occurrences(steps, Step::Destroy) <= 1 + occurrences(steps, Step::Duplicate),
        Account::opened(handle).run(steps).freed() <==> occurrences(steps, Step::Destroy) == 1
            + occurrences(steps, Step::Duplicate),
        Account::opened(handle).releases(steps) == if Account::opened(handle).run(steps).freed() {
            1nat
        } else {
            0nat
        },
    decreases steps.len(),
{
    let a = Account::opened(handle);
    lemma_run_counts(a, steps);
    if steps.len() > 0 {
        let prefix = steps.drop_last();
        assert forall|i: int| 0 <= i < prefix.len() implies !(#[trigger] a.run(
            prefix.take(i),
        )).freed() by {
            assert(prefix.take(i) =~= steps.take(i));
            assert(!a.run(steps.take(i)).freed());
        }
        lemma_conservation(handle, prefix);
        lemma_run_counts(a, prefix);
        assert(steps.take(prefix.len() as int) =~= prefix);
        assert(!a.run(steps.take(prefix.len() as int)).freed());
    }
}

/// Clone independence. When a session has a single owner and that owner is
/// duplicated, destroying either of the two leaves the session alive under
/// the same handle; destroying the other one frees it.
pub proof fn lemma_clone_independence(a: Account)
    requires
        a.wf(),
        a.outstanding() == 1,
    ensures
        !a.duplicated().destroyed().freed(),
        a.duplicated().destroyed().outstanding() == 1,
        a.duplicated().destroyed().handle == a.handle,
        a.duplicated().destroyed().destroyed().freed(),
{
}

/// The reference count of one session as this layer keeps it. Every owning
/// value of the session acts on it, and no other operation touches it.
pub struct RefCount {
    handle: usize,
    live: u64,
    acquired: Ghost<nat>,
    released: Ghost<nat>,
}

impl View for RefCount {
    type V = Account;

    closed spec fn view(&self) -> Account {
        Account { handle: self.handle, acquired: self.acquired@, released: self.released@ }
    }
}

impl RefCount {
    #[verifier::type_invariant]
    spec fn balanced(self) -> bool {
        &&& self@.wf()
        &&& self.live == self@.outstanding()
    }

    pub(crate) fn opened(handle: usize) -> (r: RefCount)
        requires
            handle != 0,
        ensures
            r@ == Account::opened(handle),
    {
        RefCount { handle, live: 1, acquired: Ghost(1), released: Ghost(0) }
    }

    /// The session handle this count belongs to.
    pub fn handle(&self) -> (r: usize)
        ensures
            r == self@.handle,
    {
        self.handle
    }

    /// How many owning values of the session are live.
    pub fn outstanding(&self) -> (r: u64)
        ensures
            r == self@.outstanding(),
    {
        proof {
            use_type_invariant(self);
        }
        self.live
    }

    pub(crate) fn acquire(&mut self)
        requires
            !old(self)@.freed(),
            old(self)@.outstanding() < u64::MAX,
        ensures
            final(self)@ == old(self)@.duplicated(),
    {
        proof {
            use_type_invariant(&*self);
        }
        *self = RefCount {
            handle: self.handle,
            live: self.live + 1,
            acquired: Ghost(self.acquired@ + 1),
            released: self.released,
        };
    }

    /// Records one destroyed owner; true when it was the last one.
    pub(crate) fn release(&mut self) -> (last: bool)
        requires
            !old(self)@.freed(),
        ensures
            final(self)@ == old(self)@.destroyed(),
            last == final(self)@.freed(),
    {
        proof {
            use_type_invariant(&*self);
        }
        *self = RefCount {
            handle: self.handle,
            live: self.live - 1,
            acquired: self.acquired,
            released: Ghost(self.released@ + 1),
        };
        self.live == 0
    }
}

} // verus!
