//! The use case that adds an author to the catalog.

use super::{begin, success, EventStore, EventStoreHandler, UoW};
use crate::domain::author::{full_name_of, Author, AuthorRepository, AuthorView};
use crate::domain::{lemma_delivered_to_one, DomainEventPublisher};
use vstd::prelude::*;

verus! {

/// Adds an author under the identity `id`, which the repository's sequence
/// gave: the author is created, their creation is appended to the event store,
/// their row is queued, and the unit of work is committed. What the commit
/// hands out holds the event and the row together.
pub fn create<U: UoW, R: AuthorRepository<U>, S: EventStore<U>>(
    id: i32,
    first_name: &str,
    last_name: &str,
    author_repository: &R,
    event_store: S,
    uow: &mut U,
) -> (batch: U::Batch)
    requires
        first_name@.len() > 0,
        last_name@.len() > 0,
    ensures
        ({
            let author = AuthorView {
                id,
                first_name: first_name@,
                last_name: last_name@,
                full_name: full_name_of(first_name@, last_name@),
            };
            let appended = event_store.appended(author.created(), old(uow)@);
            let queued = author_repository.created(author, appended);
            U::commits(queued, batch, final(uow)@)
        }),
{
    let mut publisher = DomainEventPublisher::new();
    begin(&mut publisher, event_store);
    proof {
        let author = AuthorView {
            id,
            first_name: first_name@,
            last_name: last_name@,
            full_name: full_name_of(first_name@, last_name@),
        };
        lemma_delivered_to_one::<U, EventStoreHandler<S>>(
            EventStoreHandler { event_store },
            author.created(),
            uow@,
        );
    }
    let author = Author::new(id, first_name, last_name, &mut publisher, uow);
    author_repository.create(&author, uow);
    success(uow)
}

} // verus!
