use catalog::application::{begin, success, EventStoreHandler, UoW};
use catalog::domain::book::Book;
use catalog::domain::DomainEventPublisher;
use catalog::infrastructure::author::DbAuthorRepository;
use catalog::infrastructure::book::DbBookRepository;
use catalog::infrastructure::{CommitError, DbEventStore, DbUoW, Statement};

#[test]
fn create_author_queues_the_event_and_the_row() {
    let mut uow = DbUoW::new();
    let batch = catalog::application::author::create(
        1,
        "Ada",
        "Lovelace",
        &DbAuthorRepository::new(),
        DbEventStore::new(),
        &mut uow,
    )
    .unwrap();
    assert_eq!(batch.len(), 2);
    match &batch[0] {
        Statement::InsertStoredEvent { name, payload } => {
            assert_eq!(name, "author_created");
            assert!(payload.contains("\"first_name\":\"Ada\""));
            assert_eq!(
                payload,
                "{\"AuthorCreated\":{\"id\":1,\"first_name\":\"Ada\",\"last_name\":\"Lovelace\",\"full_name\":\"Ada Lovelace\"}}"
            );
        }
        other => panic!("unexpected statement {:?}", other),
    }
    assert_eq!(
        batch[1],
        Statement::InsertAuthor {
            id: 1,
            first_name: String::from("Ada"),
            last_name: String::from("Lovelace"),
            full_name: String::from("Ada Lovelace"),
        }
    );
    assert_eq!(uow.commit(), Ok(vec![]));
}

#[test]
fn create_book_queues_the_event_and_the_rows() {
    let mut uow = DbUoW::new();
    let batch = catalog::application::book::create(
        10,
        "book10",
        100,
        vec![1, 2],
        &DbBookRepository::new(),
        DbEventStore::new(),
        &mut uow,
    )
    .unwrap();
    assert_eq!(
        batch,
        vec![
            Statement::InsertStoredEvent {
                name: String::from("book_created"),
                payload: String::from(
                    "{\"BookCreated\":{\"id\":10,\"name\":\"book10\",\"pages_count\":100,\"authors\":[1,2]}}"
                ),
            },
            Statement::InsertBook { id: 10, name: String::from("book10"), pages_count: 100 },
            Statement::InsertAuthorBook { author_id: 1, book_id: 10 },
            Statement::InsertAuthorBook { author_id: 2, book_id: 10 },
        ]
    );
    assert_eq!(uow.commit(), Ok(vec![]));
}

#[test]
fn create_book_commits_what_was_pending_before_it() {
    let mut uow = DbUoW::new();
    uow.add(Statement::DeleteAuthorBook { book_id: 3 });
    let batch = catalog::application::book::create(
        4,
        "b",
        1,
        vec![9],
        &DbBookRepository::new(),
        DbEventStore::new(),
        &mut uow,
    )
    .unwrap();
    assert_eq!(batch.len(), 4);
    assert_eq!(batch[0], Statement::DeleteAuthorBook { book_id: 3 });
    assert_eq!(batch[3], Statement::InsertAuthorBook { author_id: 9, book_id: 4 });
}

#[test]
fn create_book_in_a_unit_of_work_that_was_given_up_writes_nothing() {
    let mut uow = DbUoW::new();
    uow.abort();
    let batch = catalog::application::book::create(
        4,
        "b",
        1,
        vec![9],
        &DbBookRepository::new(),
        DbEventStore::new(),
        &mut uow,
    );
    assert_eq!(batch, Err(CommitError::Aborted));
}

#[test]
fn begin_subscribes_the_event_store() {
    let mut uow = DbUoW::new();
    let mut publisher: DomainEventPublisher<EventStoreHandler<DbEventStore>> =
        DomainEventPublisher::new();
    begin(&mut publisher, DbEventStore::new());
    let mut book = Book::new(1, "book1", 100, vec![1, 2], &mut publisher, &mut uow);
    book.update("book1", 10, vec![1], &mut publisher, &mut uow);
    book.update("book2", 10, vec![1], &mut publisher, &mut uow);
    let batch = success(&mut uow).unwrap();
    assert_eq!(
        batch,
        vec![
            Statement::InsertStoredEvent {
                name: String::from("book_created"),
                payload: String::from(
                    "{\"BookCreated\":{\"id\":1,\"name\":\"book1\",\"pages_count\":100,\"authors\":[1,2]}}"
                ),
            },
            Statement::InsertStoredEvent {
                name: String::from("book_renamed"),
                payload: String::from("{\"BookRenamed\":{\"id\":1,\"name\":\"book2\"}}"),
            },
        ]
    );
}

#[test]
fn every_subscribed_store_appends_the_event() {
    let mut uow = DbUoW::new();
    let mut publisher = DomainEventPublisher::new();
    begin(&mut publisher, DbEventStore::new());
    begin(&mut publisher, DbEventStore::new());
    let _book = Book::new(1, "book1", 100, vec![1], &mut publisher, &mut uow);
    assert_eq!(success(&mut uow).map(|batch| batch.len()), Ok(2));
}
