//! The channel registry: one completion waker per channel.
//!
//! A transfer that is polled leaves the task's waker in its channel's slot;
//! the interrupt bridge wakes the slots of the channels that stopped.

use vstd::prelude::*;
use core::task::Waker;
use embassy_sync::waitqueue::AtomicWaker;
use crate::dma::CHANNEL_COUNT;

verus! {

/// `core::task::Waker`: the handle by which a task is woken.
#[verifier::external_type_specification]
#[verifier::external_body]
pub struct ExWaker(Waker);

/// `embassy_sync::waitqueue::AtomicWaker`: a slot for one waker that can be
/// filled and woken through a shared reference.
#[verifier::external_type_specification]
#[verifier::external_body]
pub struct ExAtomicWaker(AtomicWaker);

/// `AtomicWaker::new` makes a slot. Nothing is claimed of it.
pub assume_specification[ AtomicWaker::new ]() -> AtomicWaker;

/// `AtomicWaker::register` leaves a waker for the task of `w` in the slot,
/// in place of any earlier one. It returns nothing and nothing is claimed.
pub assume_specification[ AtomicWaker::register ](slot: &AtomicWaker, w: &Waker);

/// `AtomicWaker::wake` wakes the waker in the slot, if there is one. It
/// returns nothing and nothing is claimed.
pub assume_specification[ AtomicWaker::wake ](slot: &AtomicWaker);

/// The state of one channel that outlives its transfers.
pub struct ChannelState {
    waker: AtomicWaker,
    complete_count: usize,
}

impl ChannelState {
    /// The state of a channel that has not been used.
    pub fn new() -> (r: Self)
        ensures
            r.spec_complete_count() == 0,
    {
        ChannelState { waker: AtomicWaker::new(), complete_count: 0 }
    }

    /// How many completions have been counted.
    pub closed spec fn spec_complete_count(&self) -> usize {
        self.complete_count
    }

    /// How many completions have been counted.
    #[verifier::when_used_as_spec(spec_complete_count)]
    pub fn complete_count(&self) -> (r: usize)
        ensures
            r == self.spec_complete_count(),
    {
        self.complete_count
    }
}

/// The channel registry, one state per channel over all controllers.
pub struct ChannelRegistry {
    slots: Vec<ChannelState>,
}

impl ChannelRegistry {
    #[verifier::type_invariant]
    spec fn complete(self) -> bool {
        self.slots.len() == CHANNEL_COUNT
    }

    /// How many completions have been counted for channel `id`.
    pub closed spec fn spec_complete_count(&self, id: usize) -> usize {
        self.slots[id as int].spec_complete_count()
    }

    /// A registry in which no channel has a waker and nothing is counted.
    pub fn new() -> (r: Self)
        ensures
            forall|id: usize| id < CHANNEL_COUNT ==> r.spec_complete_count(id) == 0,
    {
        let mut slots: Vec<ChannelState> = Vec::new();
        let mut i: usize = 0;
        while i < CHANNEL_COUNT
            invariant
                i <= CHANNEL_COUNT,
                slots.len() == i,
                forall|k: int| 0 <= k < i ==> slots[k].spec_complete_count() == 0,
            decreases CHANNEL_COUNT - i,
        {
            slots.push(ChannelState::new());
            i += 1;
        }
        ChannelRegistry { slots }
    }

    /// How many completions have been counted for channel `id`.
    #[verifier::when_used_as_spec(spec_complete_count)]
    pub fn complete_count(&self, id: usize) -> (n: usize)
        requires
            id < CHANNEL_COUNT,
        ensures
            n == self.spec_complete_count(id),
    {
        proof {
            use_type_invariant(self);
        }
        self.slots[id].complete_count()
    }

    /// Leaves `waker` in the slot of channel `id`, in place of any earlier
    /// one.
    pub fn register(&self, id: usize, waker: &Waker)
        requires
            id < CHANNEL_COUNT,
    {
        proof {
            use_type_invariant(self);
        }
        self.slots[id].waker.register(waker);
    }

    /// Wakes the waker in the slot of channel `id`, if there is one.
    pub fn wake(&self, id: usize)
        requires
            id < CHANNEL_COUNT,
    {
        proof {
            use_type_invariant(self);
        }
        self.slots[id].waker.wake();
    }
}

} // verus!
