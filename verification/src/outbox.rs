//! The fixed-capacity list of output slots that an engine publishes into.
//!
//! The list itself is an `arrayvec::ArrayVec`. What it holds is named by
//! `slots`; the functions below are the only places where the list is touched,
//! and their contracts are taken on trust from the `arrayvec` crate.

use crate::msg::BotConfiguration;
use arrayvec::ArrayVec;
use vstd::prelude::*;

verus! {

/// The largest number of consumers that an engine serves.
pub const CONSUMER_LIMIT: usize = 16;

/// `arrayvec::ArrayVec`, a vector of fixed capacity, as a type whose inside
/// is not looked at.
#[verifier::external_type_specification]
#[verifier::external_body]
#[verifier::reject_recursive_types(T)]
pub struct ExArrayVec<T, const CAP: usize>(ArrayVec<T, CAP>);

/// The slots that the list holds, first registered first.
pub uninterp spec fn slots(txs: ArrayVec<Option<BotConfiguration>, CONSUMER_LIMIT>) -> Seq<
    Option<BotConfiguration>,
>;

/// `ArrayVec::new`: a list without slots.
#[verifier::external_body]
pub(crate) fn new_slots() -> (txs: ArrayVec<Option<BotConfiguration>, CONSUMER_LIMIT>)
    ensures
        slots(txs) == Seq::<Option<BotConfiguration>>::empty(),
{
    ArrayVec::new()
}

/// `ArrayVec::len`: the number of slots, which never exceeds the capacity.
#[verifier::external_body]
pub(crate) fn slot_count(txs: &ArrayVec<Option<BotConfiguration>, CONSUMER_LIMIT>) -> (n: usize)
    ensures
        n == slots(*txs).len(),
        n <= CONSUMER_LIMIT,
{
    txs.len()
}

/// `ArrayVec::push`: appends one slot. It panics on a full list, which the
/// precondition rules out.
#[verifier::external_body]
pub(crate) fn push_slot(
    txs: &mut ArrayVec<Option<BotConfiguration>, CONSUMER_LIMIT>,
    slot: Option<BotConfiguration>,
)
    requires
        slots(*old(txs)).len() < CONSUMER_LIMIT,
    ensures
        slots(*final(txs)) == slots(*old(txs)).push(slot),
{
    txs.push(slot)
}

/// `ArrayVec::as_slice`: the slots as a slice, in order.
#[verifier::external_body]
pub(crate) fn slots_as_slice(
    txs: &ArrayVec<Option<BotConfiguration>, CONSUMER_LIMIT>,
) -> (all: &[Option<BotConfiguration>])
    ensures
        all@ == slots(*txs),
{
    txs.as_slice()
}

/// `ArrayVec::as_mut_slice`: the slots as a slice that can be written to.
/// What the slice holds when the caller lets go of it is what the list holds
/// from then on; a slice cannot grow or shrink, so the number of slots stays.
#[verifier::external_body]
pub(crate) fn slots_as_mut_slice(
    txs: &mut ArrayVec<Option<BotConfiguration>, CONSUMER_LIMIT>,
) -> (all: &mut [Option<BotConfiguration>])
    ensures
        all@ == slots(*old(txs)),
        slots(*final(txs)) == final(all)@,
{
    txs.as_mut_slice()
}

} // verus!
