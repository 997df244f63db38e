//! Domain events and the hub that hands them to their subscribers.

pub mod author;
pub mod book;

use author::{AuthorCreated, AuthorCreatedView, AuthorRenamed, AuthorRenamedView};
use book::{BookCreated, BookCreatedView, BookRenamed, BookRenamedView};
use vstd::prelude::*;

verus! {

/// Everything that can happen to an aggregate of the catalog.
#[derive(Debug, Clone, PartialEq, Eq)]
pub enum DomainEvent {
    BookCreated(BookCreated),
    BookRenamed(BookRenamed),
    AuthorCreated(AuthorCreated),
    AuthorRenamed(AuthorRenamed),
}

/// A domain event as a mathematical value.
pub enum DomainEventView {
    BookCreated(BookCreatedView),
    BookRenamed(BookRenamedView),
    AuthorCreated(AuthorCreatedView),
    AuthorRenamed(AuthorRenamedView),
}

impl View for DomainEvent {
    type V = DomainEventView;

    open spec fn view(&self) -> DomainEventView {
        match self {
            DomainEvent::BookCreated(e) => DomainEventView::BookCreated(e@),
            DomainEvent::BookRenamed(e) => DomainEventView::BookRenamed(e@),
            DomainEvent::AuthorCreated(e) => DomainEventView::AuthorCreated(e@),
            DomainEvent::AuthorRenamed(e) => DomainEventView::AuthorRenamed(e@),
        }
    }
}

impl DomainEventView {
    /// The stable tag under which events of this kind are routed and stored.
    pub open spec fn name(self) -> Seq<char> {
        match self {
            DomainEventView::BookCreated(_) => "book_created"@,
            DomainEventView::BookRenamed(_) => "book_renamed"@,
            DomainEventView::AuthorCreated(_) => "author_created"@,
            DomainEventView::AuthorRenamed(_) => "author_renamed"@,
        }
    }
}

impl DomainEvent {
    pub fn domain_event_name(&self) -> (name: &'static str)
        ensures
            name@ == self@.name(),
    {
        match self {
            DomainEvent::BookCreated(_) => "book_created",
            DomainEvent::BookRenamed(_) => "book_renamed",
            DomainEvent::AuthorCreated(_) => "author_created",
            DomainEvent::AuthorRenamed(_) => "author_renamed",
        }
    }
}

/// A subscriber of domain events.
///
/// A handler works on a context that is handed to it with every event: the
/// state that it is allowed to change. What it does to the context is a
/// function of the event and the context before.
pub trait DomainEventHandler<C: View> {
    /// The context after this handler has seen `e`.
    spec fn handled(&self, e: DomainEventView, before: C::V) -> C::V;

    fn handle(&self, e: &DomainEvent, ctx: &mut C)
        ensures
            final(ctx)@ == self.handled(e@, old(ctx)@),
    ;
}

/// What `handlers`, called one after the other, make of the context.
pub open spec fn delivered<C: View, H: DomainEventHandler<C>>(
    handlers: Seq<H>,
    e: DomainEventView,
    before: C::V,
) -> C::V
    decreases handlers.len(),
{
    if handlers.len() == 0 {
        before
    } else {
        handlers.last().handled(e, delivered(handlers.drop_last(), e, before))
    }
}

/// The hub of one use case. It is open at first: subscribers register, and
/// each comes behind those that are there. The first event seals it: from then
/// on every event reaches the same subscribers, in the order in which they
/// registered, and none can join.
pub struct DomainEventPublisher<H> {
    handlers: Vec<H>,
    sealed: bool,
}

impl<H> View for DomainEventPublisher<H> {
    type V = Seq<H>;

    /// The subscribers, first registered first.
    closed spec fn view(&self) -> Seq<H> {
        self.handlers@
    }
}

impl<H> DomainEventPublisher<H> {
    /// Whether an event was published already.
    pub closed spec fn sealed(&self) -> bool {
        self.sealed
    }

    pub fn new() -> (publisher: Self)
        ensures
            publisher@ == Seq::<H>::empty(),
            !publisher.sealed(),
    {
        Self { handlers: Vec::new(), sealed: false }
    }

    pub fn is_sealed(&self) -> (sealed: bool)
        ensures
            sealed == self.sealed(),
    {
        self.sealed
    }

    /// Hands `e` to every subscriber, first registered first, and seals the
    /// hub.
    pub fn publish<C: View>(&mut self, e: &DomainEvent, ctx: &mut C) where H: DomainEventHandler<C>
        ensures
            final(self)@ == old(self)@,
            final(self).sealed(),
            final(ctx)@ == delivered(old(self)@, e@, old(ctx)@),
    {
        self.sealed = true;
        let n = self.handlers.len();
        let mut i: usize = 0;
        while i < n
            invariant
                self.handlers == old(self).handlers,
                self.sealed,
                n == self.handlers@.len(),
                i <= n,
                ctx@ == delivered(self.handlers@.take(i as int), e@, old(ctx)@),
            decreases n - i,
        {
            self.handlers[i].handle(e, ctx);
            proof {
                assert(self.handlers@.take(i + 1).drop_last() == self.handlers@.take(i as int));
            }
            i += 1;
        }
        proof {
            assert(self.handlers@.take(n as int) == self.handlers@);
        }
    }

    /// Registers `handle` behind the subscribers that are already there.
    pub fn subscribe(&mut self, handle: H)
        requires
            !old(self).sealed(),
        ensures
            final(self)@ == old(self)@.push(handle),
            !final(self).sealed(),
    {
        self.handlers.push(handle);
    }
}

/// A single subscriber sees the event once.
pub proof fn lemma_delivered_to_one<C: View, H: DomainEventHandler<C>>(
    handler: H,
    e: DomainEventView,
    before: C::V,
)
    ensures
        delivered(seq![handler], e, before) == handler.handled(e, before),
{
    assert(delivered(seq![handler].drop_last(), e, before) == before);
}

/// A later subscriber works on what the earlier ones left.
pub proof fn lemma_delivered_push<C: View, H: DomainEventHandler<C>>(
    handlers: Seq<H>,
    handler: H,
    e: DomainEventView,
    before: C::V,
)
    ensures
        delivered(handlers.push(handler), e, before) == handler.handled(
            e,
            delivered(handlers, e, before),
        ),
{
    assert(handlers.push(handler).drop_last() == handlers);
}

} // verus!
