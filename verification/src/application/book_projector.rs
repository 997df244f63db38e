//! A projector that follows the books of the catalog.

use crate::domain::book::{copy_ids, BookCreated, BookRenamed};
use crate::domain::{DomainEvent, DomainEventHandler, DomainEventPublisher, DomainEventView};
use vstd::prelude::*;

verus! {

/// What the projector has seen of the books, oldest first.
#[derive(Debug)]
pub struct BookProjection {
    pub events: Vec<DomainEvent>,
}

impl View for BookProjection {
    type V = Seq<DomainEventView>;

    open spec fn view(&self) -> Seq<DomainEventView> {
        self.events@.map_values(|e: DomainEvent| e@)
    }
}

impl BookProjection {
    pub fn new() -> (projection: Self)
        ensures
            projection@ == Seq::<DomainEventView>::empty(),
    {
        let projection = Self { events: Vec::new() };
        projection
    }
}

/// The subscriber that keeps what happens to books and lets everything else
/// pass.
#[derive(Debug)]
pub struct BookProjector {}

/// Whether the projector keeps `e`.
pub open spec fn projected(e: DomainEventView) -> bool {
    e is BookCreated || e is BookRenamed
}

impl DomainEventHandler<BookProjection> for BookProjector {
    open spec fn handled(&self, e: DomainEventView, before: Seq<DomainEventView>) -> Seq<
        DomainEventView,
    > {
        if projected(e) {
            before.push(e)
        } else {
            before
        }
    }

    fn handle(&self, e: &DomainEvent, ctx: &mut BookProjection) {
        match e {
            DomainEvent::BookCreated(e) => on_book_created(e, ctx),
            DomainEvent::BookRenamed(e) => on_book_renamed(e, ctx),
            _ => {},
        }
    }
}

/// Subscribes the projector of books to `publisher`.
pub fn create(publisher: &mut DomainEventPublisher<BookProjector>)
    requires
        !old(publisher).sealed(),
    ensures
        final(publisher)@ == old(publisher)@.push(BookProjector {  }),
        !final(publisher).sealed(),
{
    publisher.subscribe(BookProjector {  })
}

fn on_book_created(e: &BookCreated, projection: &mut BookProjection)
    ensures
        final(projection)@ == old(projection)@.push(DomainEventView::BookCreated(e@)),
{
    let kept = BookCreated {
        id: e.id,
        name: e.name.clone(),
        pages_count: e.pages_count,
        authors: copy_ids(&e.authors),
    };
    projection.events.push(DomainEvent::BookCreated(kept));
}

fn on_book_renamed(e: &BookRenamed, projection: &mut BookProjection)
    ensures
        final(projection)@ == old(projection)@.push(DomainEventView::BookRenamed(e@)),
{
    let kept = BookRenamed { id: e.id, name: e.name.clone() };
    projection.events.push(DomainEvent::BookRenamed(kept));
}

} // verus!
