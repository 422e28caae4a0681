//! What every engine of a bot offers to the code that runs it.

use crate::error::EngineError;
use crate::outbox::CONSUMER_LIMIT;
use vstd::prelude::*;

verus! {

/// What happened to an engine as a whole since the last step.
#[derive(Debug, Clone, Copy, PartialEq, Eq)]
pub enum StartEvent {
    /// The engine was started.
    Started,
    /// The delay that the last step asked for has passed.
    DelayElapsed,
    /// An attempt has ended with this result.
    AttemptEnded(Result<(), EngineError>),
}

/// What the caller does after a step of an engine as a whole.
#[derive(Debug, Clone, Copy, PartialEq, Eq)]
pub enum StartAction {
    /// Wait for this many seconds.
    Sleep(u64),
    /// Run one attempt.
    Attempt,
    /// Stop the engine with this result.
    Return(Result<(), EngineError>),
}

/// What an output slot holds, as a mathematical value.
pub open spec fn slot_view<T: View>(slot: Option<T>) -> Option<T::V> {
    match slot {
        Some(value) => Some(value@),
        None => None,
    }
}

/// An engine: it is started and stopped as a whole, and it hands what it
/// produces to at most `CONSUMER_LIMIT` consumers, each through an output
/// slot of its own.
pub trait Engine {
    /// What the engine produces.
    type Data: View;

    /// What waits in the output slots, one slot for each consumer, in the
    /// order in which the consumers registered.
    spec fn outputs(&self) -> Seq<Option<<Self::Data as View>::V>>;

    /// The name of the engine in diagnostics.
    fn name(&self) -> &'static str;

    /// Takes the engine as a whole one step further. An engine stops only
    /// after an attempt that ended with success.
    fn start(&self, event: StartEvent) -> (action: StartAction)
        ensures
            action is Return ==> (event matches StartEvent::AttemptEnded(result) && result is Ok),
    ;

    /// Registers one more consumer and returns its number. The new slot is
    /// the last, and empty.
    fn data_rx(&mut self) -> (consumer: usize)
        requires
            old(self).outputs().len() < CONSUMER_LIMIT,
        ensures
            final(self).outputs() == old(self).outputs().push(None),
            consumer == old(self).outputs().len(),
    ;

    /// The output slots, one for each consumer.
    fn data_txs(&self) -> (txs: &[Option<Self::Data>])
        ensures
            txs@.len() == self.outputs().len(),
            forall|i: int|
                #![trigger txs@[i]]
                #![trigger self.outputs()[i]]
                0 <= i < txs@.len() ==> slot_view(txs@[i]) == self.outputs()[i],
    ;

    /// Puts `val` into the slot of every consumer. What waited there before
    /// is overwritten.
    fn push_value(&mut self, val: Self::Data)
        ensures
            final(self).outputs() == Seq::new(old(self).outputs().len(), |i: int| Some(val@)),
    ;
}

} // verus!
