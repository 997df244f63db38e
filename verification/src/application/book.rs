//! The use case that adds a book to the catalog.

use super::{begin, success, EventStore, EventStoreHandler, UoW};
use crate::domain::book::{Book, BookRepository, BookView};
use crate::domain::{lemma_delivered_to_one, DomainEventPublisher};
use vstd::prelude::*;

verus! {

/// Adds a book under the identity `id`, which the repository's sequence gave:
/// the book is created, its creation is appended to the event store, its rows
/// are queued, and the unit of work is committed. What the commit hands out
/// holds the event and the rows together.
pub fn create<U: UoW, R: BookRepository<U>, S: EventStore<U>>(
    id: i32,
    name: &str,
    pages_count: i32,
    authors: Vec<i32>,
    book_repository: &R,
    event_store: S,
    uow: &mut U,
) -> (batch: U::Batch)
    requires
        name@.len() > 0,
        pages_count > 0,
        authors@.len() > 0,
    ensures
        ({
            let book = BookView { id, name: name@, pages_count, authors: authors@ };
            let appended = event_store.appended(book.created(), old(uow)@);
            let queued = book_repository.created(book, appended);
            U::commits(queued, batch, final(uow)@)
        }),
{
    let mut publisher = DomainEventPublisher::new();
    begin(&mut publisher, event_store);
    proof {
        let book = BookView { id, name: name@, pages_count, authors: authors@ };
        lemma_delivered_to_one::<U, EventStoreHandler<S>>(
            EventStoreHandler { event_store },
            book.created(),
            uow@,
        );
    }
    let book = Book::new(id, name, pages_count, authors, &mut publisher, uow);
    book_repository.create(&book, uow);
    success(uow)
}

} // verus!
