//! The use cases of the catalog and what they ask of their surroundings: a
//! unit of work to commit and an event store to append to.

pub mod author;
pub mod book;
pub mod book_projector;

use crate::domain::{DomainEvent, DomainEventHandler, DomainEventPublisher, DomainEventView};
use vstd::prelude::*;

verus! {

/// Makes `event_store` the subscriber of `publisher` that appends every
/// published event.
pub fn begin<U: View, S: EventStore<U>>(
    publisher: &mut DomainEventPublisher<EventStoreHandler<S>>,
    event_store: S,
)
    requires
        !old(publisher).sealed(),
    ensures
        final(publisher)@ == old(publisher)@.push(EventStoreHandler { event_store }),
        !final(publisher).sealed(),
{
    publisher.subscribe(EventStoreHandler { event_store });
}

/// Ends a use case that went well: commits its unit of work.
pub fn success<U: UoW>(uow: &mut U) -> (batch: U::Batch)
    ensures
        U::commits(old(uow)@, batch, final(uow)@),
{
    uow.commit()
}

/// An event as the event log keeps it: the name of its kind and its payload.
#[derive(Debug, Clone)]
pub struct StoredEvent {
    name: String,
    payload: String,
}

/// A stored event as a mathematical value.
pub struct StoredEventView {
    pub name: Seq<char>,
    pub payload: Seq<char>,
}

impl View for StoredEvent {
    type V = StoredEventView;

    closed spec fn view(&self) -> StoredEventView {
        StoredEventView { name: self.name@, payload: self.payload@ }
    }
}

impl StoredEvent {
    pub fn new(name: &str, payload: &str) -> (stored_event: Self)
        ensures
            stored_event@ == (StoredEventView { name: name@, payload: payload@ }),
    {
        Self { name: name.to_owned(), payload: payload.to_owned() }
    }

    pub fn name(&self) -> (name: &str)
        ensures
            name@ == self@.name,
    {
        self.name.as_str()
    }

    pub fn playload(&self) -> (payload: &str)
        ensures
            payload@ == self@.payload,
    {
        self.payload.as_str()
    }
}

/// The boundary of one use case: what was queued in it becomes durable
/// together or not at all.
pub trait UoW: View {
    /// What a commit hands over to be made durable in one step.
    type Batch;

    /// A commit that finds the unit of work as `before` may hand out `batch`
    /// and leave the unit of work as `after`.
    spec fn commits(before: Self::V, batch: Self::Batch, after: Self::V) -> bool;

    fn commit(&mut self) -> (batch: Self::Batch)
        ensures
            Self::commits(old(self)@, batch, final(self)@),
    ;
}

/// The log of domain events. It does not write: it queues the event in the
/// unit of work `U` that it is handed, so that the event becomes durable with
/// the change that it describes.
pub trait EventStore<U: View> {
    /// The unit of work once `e` is appended.
    spec fn appended(&self, e: DomainEventView, before: U::V) -> U::V;

    fn append(&self, domain_event: &DomainEvent, uow: &mut U)
        ensures
            final(uow)@ == self.appended(domain_event@, old(uow)@),
    ;
}

/// The subscription of an event store: it appends what it is handed.
pub struct EventStoreHandler<S> {
    pub event_store: S,
}

impl<U: View, S: EventStore<U>> DomainEventHandler<U> for EventStoreHandler<S> {
    open spec fn handled(&self, e: DomainEventView, before: U::V) -> U::V {
        self.event_store.appended(e, before)
    }

    fn handle(&self, e: &DomainEvent, ctx: &mut U) {
        self.event_store.append(e, ctx);
    }
}

} // verus!
