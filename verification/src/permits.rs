//! The pool of connection permits: a bounded counter that admits at most
//! `capacity` handlers at a time and lets the others wait.

use vstd::prelude::*;

verus! {

/// A permit pool as a mathematical value.
pub struct PermitPoolView {
    /// The number of permits that exist.
    pub capacity: nat,
    /// The number of permits that handlers hold.
    pub held: nat,
    /// The number of handlers that wait for a permit.
    pub waiting: nat,
}

/// The pool with `capacity` permits, none of them held.
pub open spec fn fresh_pool(capacity: nat) -> PermitPoolView {
    PermitPoolView { capacity, held: 0, waiting: 0 }
}

/// No more permits are held than exist, and nobody waits while one is free.
pub open spec fn pool_wf(pool: PermitPoolView) -> bool {
    &&& pool.held <= pool.capacity
    &&& pool.waiting > 0 ==> pool.held == pool.capacity
}

/// Whether a handler that asks now gets a permit at once.
pub open spec fn grants(pool: PermitPoolView) -> bool {
    pool.held < pool.capacity
}

/// The pool after one more handler has asked for a permit: it holds one if
/// one was free, and waits if none was.
pub open spec fn acquire_spec(pool: PermitPoolView) -> PermitPoolView {
    if grants(pool) {
        PermitPoolView { held: pool.held + 1, ..pool }
    } else {
        PermitPoolView { waiting: pool.waiting + 1, ..pool }
    }
}

/// Whether the permit that is given back now passes to a waiting handler.
pub open spec fn hands_over(pool: PermitPoolView) -> bool {
    pool.held > 0 && pool.waiting > 0
}

/// The pool after a handler has given its permit back: the permit passes to
/// a waiting handler if there is one, and is free again if there is none.
/// With no permit held nothing changes.
pub open spec fn release_spec(pool: PermitPoolView) -> PermitPoolView {
    if pool.held == 0 {
        pool
    } else if pool.waiting > 0 {
        PermitPoolView { waiting: (pool.waiting - 1) as nat, ..pool }
    } else {
        PermitPoolView { held: (pool.held - 1) as nat, ..pool }
    }
}

/// The permits of one acceptor.
pub struct PermitPool {
    capacity: usize,
    held: usize,
    waiting: usize,
}

impl View for PermitPool {
    type V = PermitPoolView;

    closed spec fn view(&self) -> PermitPoolView {
        PermitPoolView {
            capacity: self.capacity as nat,
            held: self.held as nat,
            waiting: self.waiting as nat,
        }
    }
}

impl PermitPool {
    /// The pool is well formed, and its counters fit the machine.
    #[verifier::type_invariant]
    pub open spec fn wf(&self) -> bool {
        &&& pool_wf(self@)
        &&& self@.capacity <= usize::MAX
        &&& self@.waiting <= usize::MAX
    }

    /// A pool of `capacity` permits.
    pub fn new(capacity: usize) -> (pool: PermitPool)
        ensures
            pool@ == fresh_pool(capacity as nat),
    {
        PermitPool { capacity, held: 0, waiting: 0 }
    }

    /// The number of permits that exist.
    pub fn capacity(&self) -> (n: usize)
        ensures
            n == self@.capacity,
    {
        self.capacity
    }

    /// The number of permits that handlers hold.
    pub fn held(&self) -> (n: usize)
        ensures
            n == self@.held,
    {
        self.held
    }

    /// The number of handlers that wait for a permit.
    pub fn waiting(&self) -> (n: usize)
        ensures
            n == self@.waiting,
    {
        self.waiting
    }

    /// The number of permits that are free.
    pub fn available(&self) -> (n: usize)
        ensures
            n == self@.capacity - self@.held,
    {
        proof {
            use_type_invariant(self);
        }
        self.capacity - self.held
    }

    /// One more handler asks for a permit. Returns whether it got one at
    /// once; if not, it waits until `release` hands one over.
    pub fn acquire(&mut self) -> (granted: bool)
        requires
            old(self)@.waiting < usize::MAX,
        ensures
            final(self)@ == acquire_spec(old(self)@),
            granted == grants(old(self)@),
    {
        proof {
            use_type_invariant(&*self);
        }
        if self.held < self.capacity {
            self.held += 1;
            true
        } else {
            self.waiting += 1;
            false
        }
    }

    /// A handler gives its permit back. Returns whether the permit passed to
    /// a waiting handler, which the caller then lets run.
    pub fn release(&mut self) -> (handed_over: bool)
        ensures
            final(self)@ == release_spec(old(self)@),
            handed_over == hands_over(old(self)@),
    {
        proof {
            use_type_invariant(&*self);
        }
        if self.held == 0 {
            false
        } else if self.waiting > 0 {
            self.waiting -= 1;
            true
        } else {
            self.held -= 1;
            false
        }
    }
}

} // verus!
