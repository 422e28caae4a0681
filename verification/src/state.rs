//! The registry of the bots that are connected to the server.

use crate::msg::BotId;
use vstd::prelude::*;

verus! {

/// The list `bots` after `id` has joined: a bot that is already listed is not
/// listed twice.
pub open spec fn with_bot(bots: Seq<BotId>, id: BotId) -> Seq<BotId> {
    if bots.contains(id) {
        bots
    } else {
        bots.push(id)
    }
}

/// The list `bots` after `id` has left; the others keep their order.
pub open spec fn without_bot(bots: Seq<BotId>, id: BotId) -> Seq<BotId> {
    if bots.contains(id) {
        bots.remove(bots.index_of(id))
    } else {
        bots
    }
}

/// Joining keeps the list free of duplicates, lists the newcomer, and keeps
/// everybody else as they were.
pub proof fn lemma_with_bot(bots: Seq<BotId>, id: BotId)
    requires
        bots.no_duplicates(),
    ensures
        with_bot(bots, id).no_duplicates(),
        with_bot(bots, id).contains(id),
        forall|other: BotId|
            other != id ==> (with_bot(bots, id).contains(other) <==> bots.contains(other)),
        with_bot(bots, id).to_set() == bots.to_set().insert(id),
{
    let after = with_bot(bots, id);
    if bots.contains(id) {
        assert(bots.to_set() =~= bots.to_set().insert(id));
    } else {
        assert(after[bots.len() as int] == id);
        assert forall|other: BotId| other != id implies (after.contains(other) <==> bots.contains(
            other,
        )) by {
            if bots.contains(other) {
                let i = bots.index_of(other);
                assert(after[i] == other);
            }
        }
        assert forall|b: BotId| after.to_set().contains(b) <==> bots.to_set().insert(id).contains(
            b,
        ) by {
            if b == id {
                assert(after.contains(id));
            }
        }
        assert(after.to_set() =~= bots.to_set().insert(id));
    }
}

/// Leaving keeps the list free of duplicates, takes the bot off the list, and
/// keeps everybody else as they were.
pub proof fn lemma_without_bot(bots: Seq<BotId>, id: BotId)
    requires
        bots.no_duplicates(),
    ensures
        without_bot(bots, id).no_duplicates(),
        !without_bot(bots, id).contains(id),
        forall|other: BotId|
            other != id ==> (without_bot(bots, id).contains(other) <==> bots.contains(other)),
        without_bot(bots, id).to_set() == bots.to_set().remove(id),
        without_bot(bots, id).len() == if bots.contains(id) {
            bots.len() - 1
        } else {
            bots.len() as int
        },
{
    let after = without_bot(bots, id);
    if bots.contains(id) {
        let at = bots.index_of(id);
        assert forall|i: int, j: int| 0 <= i < j < after.len() implies after[i] != after[j] by {
            let si = if i < at { i } else { i + 1 };
            let sj = if j < at { j } else { j + 1 };
            assert(after[i] == bots[si]);
            assert(after[j] == bots[sj]);
        }
        assert forall|other: BotId| after.contains(other) <==> (other != id && bots.contains(
            other,
        )) by {
            if after.contains(other) {
                let i = after.index_of(other);
                let si = if i < at { i } else { i + 1 };
                assert(after[i] == bots[si]);
                assert(bots[si] == other);
                assert(si != at);
            }
            if other != id && bots.contains(other) {
                let k = bots.index_of(other);
                assert(k != at);
                let i = if k < at { k } else { k - 1 };
                assert(after[i] == bots[k]);
            }
        }
    }
    assert(after.to_set() =~= bots.to_set().remove(id));
}

/// The bots that are connected, each listed once, in the order in which they
/// joined.
pub struct GlobalState {
    bots: Vec<BotId>,
}

impl View for GlobalState {
    type V = Seq<BotId>;

    closed spec fn view(&self) -> Seq<BotId> {
        self.bots@
    }
}

impl GlobalState {
    /// No bot is listed twice.
    #[verifier::type_invariant]
    pub open spec fn wf(&self) -> bool {
        self@.no_duplicates()
    }

    /// A registry without bots.
    pub fn new() -> (state: GlobalState)
        ensures
            state@ == Seq::<BotId>::empty(),
    {
        GlobalState { bots: Vec::new() }
    }

    /// Where `id` stands in the list, if it is connected.
    fn position(&self, id: BotId) -> (at: Option<usize>)
        ensures
            at is Some <==> self@.contains(id),
            at matches Some(i) ==> i < self@.len() && self@[i as int] == id,
    {
        let mut i: usize = 0;
        while i < self.bots.len()
            invariant
                i <= self.bots@.len(),
                forall|k: int| 0 <= k < i ==> self.bots@[k] != id,
            decreases self.bots@.len() - i,
        {
            if self.bots[i] == id {
                return Some(i);
            }
            i += 1;
        }
        None
    }

    /// Whether `id` is connected.
    pub fn contains(&self, id: BotId) -> (found: bool)
        ensures
            found == self@.contains(id),
    {
        self.position(id).is_some()
    }

    /// The number of connected bots.
    pub fn len(&self) -> (n: usize)
        ensures
            n == self@.len(),
    {
        self.bots.len()
    }

    /// Lists `id` as connected.
    pub fn add_bot(&mut self, id: BotId)
        ensures
            final(self)@ == with_bot(old(self)@, id),
    {
        proof {
            use_type_invariant(&*self);
            lemma_with_bot(self@, id);
        }
        if self.position(id).is_none() {
            let mut bots: Vec<BotId> = Vec::new();
            core::mem::swap(&mut bots, &mut self.bots);
            bots.push(id);
            self.bots = bots;
        }
    }

    /// Takes `id` off the list.
    pub fn remove_bot(&mut self, id: BotId)
        ensures
            final(self)@ == without_bot(old(self)@, id),
    {
        proof {
            use_type_invariant(&*self);
            lemma_without_bot(self@, id);
        }
        if let Some(at) = self.position(id) {
            assert(self.bots@.index_of(id) == at);
            let mut bots: Vec<BotId> = Vec::new();
            core::mem::swap(&mut bots, &mut self.bots);
            bots.remove(at);
            self.bots = bots;
        }
    }

    /// A snapshot of the connected bots.
    pub fn connected_bots(&self) -> (bots: Vec<BotId>)
        ensures
            bots@ == self@,
            bots@.no_duplicates(),
    {
        proof {
            use_type_invariant(&*self);
        }
        let mut bots: Vec<BotId> = Vec::new();
        let mut i: usize = 0;
        while i < self.bots.len()
            invariant
                i <= self.bots@.len(),
                bots@ == self.bots@.subrange(0, i as int),
            decreases self.bots@.len() - i,
        {
            bots.push(self.bots[i]);
            i += 1;
        }
        assert(bots@ =~= self.bots@);
        bots
    }
}

} // verus!
