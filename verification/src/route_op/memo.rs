use vstd::prelude::*;

verus! {

/// A value that is worked out at most once and then kept. Between the
/// request that starts the work and the end of the work the slot is
/// `Resolving`, and whoever asks then is told to wait.
#[derive(Copy, Debug, PartialEq, Eq)]
pub enum Slot<T> {
    /// Nothing is known and nobody is at work.
    Empty,
    /// Somebody was told to work the value out and has not come back.
    Resolving,
    /// The value is known.
    Ready(T),
}

/// The answer to a request for the value of a slot.
#[derive(Copy, Debug, PartialEq, Eq)]
pub enum Lookup<T> {
    /// The value is known: here it is.
    Hit(T),
    /// The value is not known: the one who asked works it out and reports.
    Miss,
    /// Somebody else is working the value out: ask again later.
    Busy,
}

impl<T: Copy> Clone for Slot<T> {
    fn clone(&self) -> (copy: Slot<T>)
        ensures
            copy == *self,
    {
        *self
    }
}

impl<T: Copy> Clone for Lookup<T> {
    fn clone(&self) -> (copy: Lookup<T>)
        ensures
            copy == *self,
    {
        *self
    }
}

impl<T: Copy> Slot<T> {
    /// What a request is answered with.
    pub open spec fn answer(self) -> Lookup<T> {
        match self {
            Slot::Empty => Lookup::Miss,
            Slot::Resolving => Lookup::Busy,
            Slot::Ready(value) => Lookup::Hit(value),
        }
    }

    /// The slot after a request.
    pub open spec fn requested(self) -> Slot<T> {
        match self {
            Slot::Empty => Slot::Resolving,
            _ => self,
        }
    }

    /// The slot after the one at work reported `found`: the value, or
    /// nothing where the work failed. The first value reported stays; a
    /// failure leaves the slot empty, so that the next request starts the
    /// work again.
    pub open spec fn reported(self, found: Option<T>) -> Slot<T> {
        match self {
            Slot::Ready(_) => self,
            _ => match found {
                Some(value) => Slot::Ready(value),
                None => Slot::Empty,
            },
        }
    }

    /// The value, where it is known.
    pub open spec fn value(self) -> Option<T> {
        match self {
            Slot::Ready(value) => Some(value),
            _ => None,
        }
    }

    /// An empty slot.
    pub fn new() -> (slot: Slot<T>)
        ensures
            slot == Slot::<T>::Empty,
    {
        Slot::Empty
    }

    /// The value, where it is known.
    pub fn get(&self) -> (value: Option<T>)
        ensures
            value == self.value(),
    {
        match self {
            Slot::Ready(value) => Some(*value),
            _ => None,
        }
    }

    /// Asks for the value. On `Miss` the caller has to work the value out
    /// and hand it to `report`.
    pub fn request(&mut self) -> (answer: Lookup<T>)
        ensures
            answer == old(self).answer(),
            *final(self) == old(self).requested(),
    {
        match self {
            Slot::Empty => {
                *self = Slot::Resolving;
                Lookup::Miss
            },
            Slot::Resolving => Lookup::Busy,
            Slot::Ready(value) => Lookup::Hit(*value),
        }
    }

    /// Takes in what the one at work found, and returns the value that the
    /// slot now holds, if any.
    pub fn report(&mut self, found: Option<T>) -> (value: Option<T>)
        ensures
            *final(self) == old(self).reported(found),
            value == final(self).value(),
    {
        match self {
            Slot::Ready(value) => Some(*value),
            _ => {
                match found {
                    Some(value) => {
                        *self = Slot::Ready(value);
                        Some(value)
                    },
                    None => {
                        *self = Slot::Empty;
                        None
                    },
                }
            },
        }
    }
}

/// What can happen to a slot: somebody asks for the value, or the one at
/// work reports what was found.
pub enum SlotEvent<T> {
    Request,
    Report(Option<T>),
}

/// The slot after `events` happened to `slot`, in this order.
pub open spec fn slot_after<T: Copy>(slot: Slot<T>, events: Seq<SlotEvent<T>>) -> Slot<T>
    decreases events.len(),
{
    if events.len() == 0 {
        slot
    } else {
        let before = slot_after(slot, events.drop_last());
        match events.last() {
            SlotEvent::Request => before.requested(),
            SlotEvent::Report(found) => before.reported(found),
        }
    }
}

/// How many of the requests among `events` were answered with `Miss`, each
/// of which makes the one who asked work the value out.
pub open spec fn misses<T: Copy>(slot: Slot<T>, events: Seq<SlotEvent<T>>) -> nat
    decreases events.len(),
{
    if events.len() == 0 {
        0
    } else {
        let before = slot_after(slot, events.drop_last());
        misses(slot, events.drop_last()) + if events.last() is Request && before.answer() is Miss {
            1nat
        } else {
            0nat
        }
    }
}

/// Whether no report among `events` is one of failure.
pub open spec fn no_failure<T>(events: Seq<SlotEvent<T>>) -> bool {
    forall|i: int|
        0 <= i < events.len() ==> ((#[trigger] events[i]) matches SlotEvent::Report(found)
            ==> found is Some)
}

/// From an empty slot on and without failures, a request is answered with
/// `Miss` only while the slot is empty, which it is until the first
/// request.
proof fn lemma_one_miss<T: Copy>(events: Seq<SlotEvent<T>>)
    requires
        no_failure(events),
    ensures
        misses(Slot::<T>::Empty, events) <= 1,
        slot_after(Slot::<T>::Empty, events) is Empty ==> misses(Slot::<T>::Empty, events) == 0,
        events.len() > 0 && events[0] is Request ==> misses(Slot::<T>::Empty, events) == 1
            && !(slot_after(Slot::<T>::Empty, events) is Empty),
    decreases events.len(),
{
    if events.len() > 0 {
        let init = events.drop_last();
        lemma_one_miss(init);
    }
}

/// A value that a slot holds stays: whatever happens after the slot came to
/// hold a value, the slot holds that value, and answers every request with
/// it.
pub proof fn law_value_stays<T: Copy>(slot: Slot<T>, events: Seq<SlotEvent<T>>, i: int, j: int)
    requires
        0 <= i <= j <= events.len(),
        slot_after(slot, events.take(i)) is Ready,
    ensures
        slot_after(slot, events.take(j)) == slot_after(slot, events.take(i)),
        slot_after(slot, events.take(j)).answer() == slot_after(slot, events.take(i)).answer(),
    decreases j - i,
{
    if i < j {
        law_value_stays(slot, events, i, j - 1);
        assert(events.take(j).drop_last() == events.take(j - 1));
    }
}

/// However requests and reports follow each other on an empty slot, as long
/// as no report is one of failure, at most one request is answered with
/// `Miss`, and exactly one if a request comes first: the value is worked
/// out once.
pub proof fn law_resolved_once<T: Copy>(events: Seq<SlotEvent<T>>)
    requires
        no_failure(events),
    ensures
        misses(Slot::<T>::Empty, events) <= 1,
        events.len() > 0 && events[0] is Request ==> misses(Slot::<T>::Empty, events) == 1,
{
    lemma_one_miss(events);
}

} // verus!
