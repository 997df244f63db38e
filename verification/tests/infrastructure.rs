use catalog::application::{EventStore, EventStoreHandler, StoredEvent, UoW};
use catalog::domain::author::{Author, AuthorRepository};
use catalog::domain::book::{Book, BookCreated, BookRepository};
use catalog::domain::{DomainEvent, DomainEventPublisher};
use catalog::infrastructure::author::{AuthorRow, DbAuthorRepository};
use catalog::infrastructure::book::{BookRow, DbBookRepository, IdentityError};
use catalog::infrastructure::{CommitError, DbEventStore, DbUoW, Param, Query, Statement};

fn silent_publisher() -> DomainEventPublisher<EventStoreHandler<DbEventStore>> {
    DomainEventPublisher::new()
}

fn text(s: &str) -> Param {
    Param::Text(String::from(s))
}

#[test]
fn author_create() {
    let mut uow = DbUoW::new();
    let mut publisher = silent_publisher();
    let repo = DbAuthorRepository::new();

    let author_id = 10;
    let author = Author::new(author_id, "f", "l", &mut publisher, &mut uow);
    repo.create(&author, &mut uow);

    let rows = uow.commit().unwrap();

    assert_eq!(rows.len(), 1);
    assert_eq!(
        rows[0],
        Statement::InsertAuthor {
            id: author_id,
            first_name: String::from("f"),
            last_name: String::from("l"),
            full_name: String::from("f l"),
        }
    );
    assert_eq!(
        rows[0].sql(),
        "insert into author(id, first_name, last_name, full_name) values ($1, $2, $3, $4)"
    );
    assert_eq!(rows[0].params(), vec![Param::Int(10), text("f"), text("l"), text("f l")]);
}

#[test]
fn author_update() {
    let mut uow = DbUoW::new();
    let mut publisher = silent_publisher();
    let repo = DbAuthorRepository::new();

    let author_id = 1;
    let author = Author::new(author_id, "f1-renamed", "l1-renamed", &mut publisher, &mut uow);
    repo.update(&author, &mut uow);

    let rows = uow.commit().unwrap();

    assert_eq!(rows.len(), 1);
    assert_eq!(
        rows[0],
        Statement::UpdateAuthor {
            id: author_id,
            first_name: String::from("f1-renamed"),
            last_name: String::from("l1-renamed"),
            full_name: String::from("f1-renamed l1-renamed"),
        }
    );
    assert_eq!(
        rows[0].sql(),
        "update author set first_name = $2, last_name = $3, full_name = $4 where id = $1"
    );
    assert_eq!(
        rows[0].params(),
        vec![Param::Int(1), text("f1-renamed"), text("l1-renamed"), text("f1-renamed l1-renamed")]
    );
}

#[test]
fn author_get() {
    let repo = DbAuthorRepository::new();

    let author_id = 1;
    let row = AuthorRow {
        id: author_id,
        first_name: String::from("f1"),
        last_name: String::from("l1"),
        full_name: String::from("f1 l1"),
    };
    let author = repo.by_id(Some(&row));
    assert!(author.is_some());

    let author = author.unwrap();
    assert_eq!(author.id(), author_id);
    assert_eq!(author.first_name(), "f1");
    assert_eq!(author.last_name(), "l1");
    assert_eq!(author.full_name(), "f1 l1");
}

#[test]
fn author_that_is_not_there() {
    let repo = DbAuthorRepository::new();
    assert!(repo.by_id(None).is_none());
}

#[test]
fn next_identity() {
    let repo = DbBookRepository::new();
    let id = repo.next_identity(2);

    assert_eq!(id, Ok(2));
}

#[test]
fn next_identity_twice_goes_up() {
    let repo = DbBookRepository::new();
    let first = repo.next_identity(1).unwrap();
    let second = repo.next_identity(2).unwrap();
    assert!(first < second);
    assert_eq!((first, second), (1, 2));
}

#[test]
fn next_identity_at_the_ends_of_the_range() {
    let repo = DbBookRepository::new();
    assert_eq!(repo.next_identity(2147483647), Ok(i32::MAX));
    assert_eq!(repo.next_identity(-2147483648), Ok(i32::MIN));
    assert_eq!(repo.next_identity(2147483648), Err(IdentityError::OutOfRange));
    assert_eq!(repo.next_identity(-2147483649), Err(IdentityError::OutOfRange));
    assert_eq!(repo.next_identity(i64::MAX), Err(IdentityError::OutOfRange));
}

#[test]
fn book_create() {
    let mut uow = DbUoW::new();
    let repo = DbBookRepository::new();

    let book_id = 10;
    let book = Book::materialize(book_id, "book10", 100, vec![1, 2]);
    repo.create(&book, &mut uow);

    let rows = uow.commit().unwrap();

    assert_eq!(rows.len(), 3);
    assert_eq!(
        rows[0],
        Statement::InsertBook { id: 10, name: String::from("book10"), pages_count: 100 }
    );
    assert_eq!(rows[1], Statement::InsertAuthorBook { author_id: 1, book_id: 10 });
    assert_eq!(rows[2], Statement::InsertAuthorBook { author_id: 2, book_id: 10 });
    assert_eq!(rows[0].sql(), "insert into book(id, name, pages_count) values ($1, $2, $3)");
    assert_eq!(rows[0].params(), vec![Param::Int(10), text("book10"), Param::Int(100)]);
    assert_eq!(rows[1].sql(), "insert into author_book(author_id, book_id) values ($1, $2)");
    assert_eq!(rows[1].params(), vec![Param::Int(1), Param::Int(10)]);
    assert_eq!(rows[2].params(), vec![Param::Int(2), Param::Int(10)]);
}

#[test]
fn book_update() {
    let mut uow = DbUoW::new();
    let repo = DbBookRepository::new();

    let book_id = 1;
    let book = Book::materialize(book_id, "book1-renamed", 10, vec![1]);
    repo.update(&book, &mut uow);

    let rows = uow.commit().unwrap();

    assert_eq!(rows.len(), 3);
    assert_eq!(
        rows[0],
        Statement::UpdateBook { id: 1, name: String::from("book1-renamed"), pages_count: 10 }
    );
    assert_eq!(rows[1], Statement::DeleteAuthorBook { book_id: 1 });
    assert_eq!(rows[2], Statement::InsertAuthorBook { author_id: 1, book_id: 1 });
    assert_eq!(rows[0].sql(), "update book set name = $2, pages_count = $3 where id = $1");
    assert_eq!(rows[0].params(), vec![Param::Int(1), text("book1-renamed"), Param::Int(10)]);
    assert_eq!(rows[1].sql(), "delete from author_book where book_id = $1");
    assert_eq!(rows[1].params(), vec![Param::Int(1)]);
}

#[test]
fn book_get() {
    let repo = DbBookRepository::new();
    let rows = vec![
        BookRow { id: 1, name: String::from("book1"), pages_count: 100, author_id: 1 },
        BookRow { id: 1, name: String::from("book1"), pages_count: 100, author_id: 2 },
    ];

    let book = repo.by_id(&rows);
    assert!(book.is_some());

    let book = book.unwrap();
    assert_eq!(book.id(), 1);
    assert_eq!(book.name(), "book1");
    assert_eq!(book.pages_count(), 100);
    assert_eq!(book.authors(), vec![1, 2]);
}

#[test]
fn book_without_rows_is_not_there() {
    let repo = DbBookRepository::new();
    assert!(repo.by_id(&vec![]).is_none());
}

#[test]
fn book_is_read_the_same_twice() {
    let repo = DbBookRepository::new();
    let rows = vec![
        BookRow { id: 4, name: String::from("b"), pages_count: 12, author_id: 9 },
        BookRow { id: 4, name: String::from("b"), pages_count: 12, author_id: 3 },
    ];
    let first = repo.by_id(&rows).unwrap();
    let second = repo.by_id(&rows).unwrap();
    assert_eq!(first.id(), second.id());
    assert_eq!(first.name(), second.name());
    assert_eq!(first.pages_count(), second.pages_count());
    assert_eq!(first.authors(), second.authors());
    assert_eq!(first.authors(), vec![9, 3]);
}

#[test]
fn unit_of_work_keeps_the_order_of_its_writes() {
    let mut uow = DbUoW::new();
    uow.add(Statement::DeleteAuthorBook { book_id: 2 });
    uow.add(Statement::InsertAuthorBook { author_id: 1, book_id: 2 });
    uow.add(Statement::DeleteAuthorBook { book_id: 3 });
    assert_eq!(
        uow.commit(),
        Ok(vec![
            Statement::DeleteAuthorBook { book_id: 2 },
            Statement::InsertAuthorBook { author_id: 1, book_id: 2 },
            Statement::DeleteAuthorBook { book_id: 3 },
        ])
    );
}

#[test]
fn unit_of_work_is_empty_after_its_commit() {
    let mut uow = DbUoW::new();
    uow.add(Statement::DeleteAuthorBook { book_id: 2 });
    assert_eq!(uow.commit().map(|batch| batch.len()), Ok(1));
    assert_eq!(uow.commit(), Ok(vec![]));
}

#[test]
fn fresh_unit_of_work_commits_nothing() {
    let mut uow = DbUoW::new();
    assert_eq!(uow.commit(), Ok(vec![]));
}

#[test]
fn unit_of_work_that_was_given_up_commits_nothing() {
    let mut uow = DbUoW::new();
    uow.add(Statement::DeleteAuthorBook { book_id: 2 });
    uow.abort();
    uow.add(Statement::DeleteAuthorBook { book_id: 3 });
    assert_eq!(uow.commit(), Err(CommitError::Aborted));
    assert_eq!(uow.commit(), Err(CommitError::Aborted));
}

#[test]
fn event_store_queues_one_insert_for_an_event() {
    let mut uow = DbUoW::new();
    let store = DbEventStore::new();
    let event = DomainEvent::BookCreated(BookCreated {
        id: 1,
        name: String::from("book1"),
        pages_count: 100,
        authors: vec![1, 2],
    });
    store.append(&event, &mut uow);
    let batch = uow.commit().unwrap();
    assert_eq!(
        batch,
        vec![Statement::InsertStoredEvent {
            name: String::from("book_created"),
            payload: String::from(
                "{\"BookCreated\":{\"id\":1,\"name\":\"book1\",\"pages_count\":100,\"authors\":[1,2]}}"
            ),
        }]
    );
    assert_eq!(batch[0].sql(), "insert into stored_event(name, payload) values ($1, $2)");
    assert_eq!(
        batch[0].params(),
        vec![
            text("book_created"),
            text("{\"BookCreated\":{\"id\":1,\"name\":\"book1\",\"pages_count\":100,\"authors\":[1,2]}}"),
        ]
    );
}

#[test]
fn stored_event_keeps_name_and_payload() {
    let stored = StoredEvent::new("book_created", "{}");
    assert_eq!(stored.name(), "book_created");
    assert_eq!(stored.playload(), "{}");
}

#[test]
fn queries_carry_their_text_and_values() {
    assert_eq!(Query::NextBookIdentity.sql(), "select nextval('book_id_seq')");
    assert_eq!(
        Query::NextAuthorIdentity.sql(),
        "select nextval(pg_get_serial_sequence('author', 'id'))"
    );
    assert_eq!(
        Query::BookById { id: 1 }.sql(),
        "select * from book inner join author_book on author_book.book_id = id where id = $1"
    );
    assert_eq!(Query::AuthorById { id: 1 }.sql(), "select * from author where id = $1");
    assert_eq!(Query::NextBookIdentity.params(), vec![]);
    assert_eq!(Query::NextAuthorIdentity.params(), vec![]);
    assert_eq!(Query::BookById { id: 7 }.params(), vec![Param::Int(7)]);
    assert_eq!(Query::AuthorById { id: -2 }.params(), vec![Param::Int(-2)]);
}
