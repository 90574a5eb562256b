//! Event-sourced entities: the events an entity is made of, and the error
//! raised when an entity cannot be rebuilt from them.
use vstd::prelude::*;

verus! {

/// Rebuilding an entity from its events failed.
#[derive(Debug, PartialEq, Eq)]
pub enum EntityError {
    /// No event set the named field.
    UninitializedFieldError(&'static str),
}

/// The events of an entity, oldest first.
pub struct EntityEvents<T> {
    events: Vec<T>,
}

impl<T> View for EntityEvents<T> {
    type V = Seq<T>;

    closed spec fn view(&self) -> Seq<T> {
        self.events@
    }
}

impl<T> EntityEvents<T> {
    /// The events of a new entity.
    pub fn init(initial: Vec<T>) -> (events: Self)
        ensures
            events@ == initial@,
    {
        EntityEvents { events: initial }
    }

    /// Records one more event.
    pub fn push(&mut self, event: T)
        ensures
            final(self)@ == old(self)@.push(event),
    {
        self.events.push(event);
    }

    /// How many events there are.
    pub fn len(&self) -> (n: usize)
        ensures
            n == self@.len(),
    {
        self.events.len()
    }

    /// The `i`-th event, oldest first.
    pub fn get(&self, i: usize) -> (event: &T)
        requires
            i < self@.len(),
        ensures
            *event == self@[i as int],
    {
        &self.events[i]
    }
}

} // verus!
