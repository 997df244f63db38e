use catalog::application::{EventStore, UoW};
use catalog::domain::author::{Author, AuthorCreated, AuthorRepository};
use catalog::domain::book::{Book, BookRenamed, BookRepository};
use catalog::domain::{DomainEvent, DomainEventPublisher};
use catalog::application::EventStoreHandler;
use catalog::infrastructure::author::{AuthorRow, DbAuthorRepository};
use catalog::infrastructure::book::{BookRow, DbBookRepository};
use catalog::infrastructure::{DbEventStore, DbUoW, Statement};

/// Tables in memory, which take a batch whole or not at all.
#[derive(Clone, Default)]
struct Tables {
    book: Vec<(i32, String, i32)>,
    author_book: Vec<(i32, i32)>,
    author: Vec<AuthorRow>,
    stored_event: Vec<(String, String)>,
}

impl Tables {
    fn apply(&mut self, statement: &Statement) -> bool {
        match statement {
            Statement::InsertBook { id, name, pages_count } => {
                if self.book.iter().any(|row| row.0 == *id) {
                    return false;
                }
                self.book.push((*id, name.clone(), *pages_count));
            }
            Statement::UpdateBook { id, name, pages_count } => {
                for row in self.book.iter_mut().filter(|row| row.0 == *id) {
                    row.1 = name.clone();
                    row.2 = *pages_count;
                }
            }
            Statement::InsertAuthorBook { author_id, book_id } => {
                self.author_book.push((*author_id, *book_id));
            }
            Statement::DeleteAuthorBook { book_id } => {
                self.author_book.retain(|link| link.1 != *book_id);
            }
            Statement::InsertAuthor { id, first_name, last_name, full_name } => {
                if self.author.iter().any(|row| row.id == *id) {
                    return false;
                }
                self.author.push(AuthorRow {
                    id: *id,
                    first_name: first_name.clone(),
                    last_name: last_name.clone(),
                    full_name: full_name.clone(),
                });
            }
            Statement::UpdateAuthor { id, first_name, last_name, full_name } => {
                for row in self.author.iter_mut().filter(|row| row.id == *id) {
                    row.first_name = first_name.clone();
                    row.last_name = last_name.clone();
                    row.full_name = full_name.clone();
                }
            }
            Statement::InsertStoredEvent { name, payload } => {
                self.stored_event.push((name.clone(), payload.clone()));
            }
        }
        true
    }

    fn commit(&mut self, uow: &mut DbUoW) -> bool {
        let batch = match uow.commit() {
            Ok(batch) => batch,
            Err(_) => return false,
        };
        let mut next = self.clone();
        for statement in &batch {
            if !next.apply(statement) {
                return false;
            }
        }
        *self = next;
        true
    }

    fn book_rows(&self, id: i32) -> Vec<BookRow> {
        let mut rows = Vec::new();
        for book in self.book.iter().filter(|row| row.0 == id) {
            for link in self.author_book.iter().filter(|link| link.1 == id) {
                rows.push(BookRow {
                    id: book.0,
                    name: book.1.clone(),
                    pages_count: book.2,
                    author_id: link.0,
                });
            }
        }
        rows
    }

    fn author_row(&self, id: i32) -> Option<&AuthorRow> {
        self.author.iter().find(|row| row.id == id)
    }
}

fn sorted(ids: &[i32]) -> Vec<i32> {
    let mut ids = ids.to_vec();
    ids.sort();
    ids
}

#[test]
fn created_book_is_read_as_it_was_created() {
    let mut tables = Tables::default();
    let mut uow = DbUoW::new();
    catalog::application::book::create(
        1,
        "book1",
        100,
        vec![2, 1],
        &DbBookRepository::new(),
        DbEventStore::new(),
        &mut uow,
    )
    .unwrap()
    .into_iter()
    .for_each(|statement| assert!(tables.apply(&statement)));
    let book = DbBookRepository::new().by_id(&tables.book_rows(1)).unwrap();
    assert_eq!(book.id(), 1);
    assert_eq!(book.name(), "book1");
    assert_eq!(book.pages_count(), 100);
    assert_eq!(sorted(book.authors()), vec![1, 2]);
}

#[test]
fn created_book_is_read_from_rows_in_another_order() {
    let mut tables = Tables::default();
    let mut uow = DbUoW::new();
    let repo = DbBookRepository::new();
    repo.create(&Book::materialize(5, "b", 3, vec![7, 8, 9]), &mut uow);
    assert!(tables.commit(&mut uow));
    let mut rows = tables.book_rows(5);
    rows.reverse();
    let book = repo.by_id(&rows).unwrap();
    assert_eq!(book.id(), 5);
    assert_eq!(book.name(), "b");
    assert_eq!(book.pages_count(), 3);
    assert_eq!(book.authors(), vec![9, 8, 7]);
    assert_eq!(sorted(book.authors()), vec![7, 8, 9]);
}

#[test]
fn updated_book_has_its_new_authors_alone() {
    let mut tables = Tables::default();
    let mut uow = DbUoW::new();
    let repo = DbBookRepository::new();
    let mut publisher: DomainEventPublisher<EventStoreHandler<DbEventStore>> =
        DomainEventPublisher::new();

    let mut book = Book::new(1, "book1", 100, vec![1, 2], &mut publisher, &mut uow);
    repo.create(&book, &mut uow);
    assert!(tables.commit(&mut uow));
    assert_eq!(repo.by_id(&tables.book_rows(1)).unwrap().authors(), vec![1, 2]);

    book.update("book1", 100, vec![3], &mut publisher, &mut uow);
    repo.update(&book, &mut uow);
    assert!(tables.commit(&mut uow));

    let reloaded = repo.by_id(&tables.book_rows(1)).unwrap();
    assert_eq!(reloaded.authors(), vec![3]);
    assert_eq!(reloaded.name(), "book1");
    assert_eq!(reloaded.pages_count(), 100);
    assert_eq!(tables.author_book, vec![(3, 1)]);
}

#[test]
fn update_leaves_the_links_of_other_books() {
    let mut tables = Tables::default();
    let mut uow = DbUoW::new();
    let repo = DbBookRepository::new();
    repo.create(&Book::materialize(1, "one", 10, vec![1, 2]), &mut uow);
    repo.create(&Book::materialize(2, "two", 20, vec![2]), &mut uow);
    repo.update(&Book::materialize(1, "uno", 11, vec![5]), &mut uow);
    assert!(tables.commit(&mut uow));
    assert_eq!(repo.by_id(&tables.book_rows(1)).unwrap().authors(), vec![5]);
    assert_eq!(repo.by_id(&tables.book_rows(1)).unwrap().name(), "uno");
    assert_eq!(repo.by_id(&tables.book_rows(2)).unwrap().authors(), vec![2]);
    assert_eq!(repo.by_id(&tables.book_rows(2)).unwrap().name(), "two");
}

#[test]
fn appended_events_become_rows_with_the_commit() {
    let mut tables = Tables::default();
    let mut uow = DbUoW::new();
    let store = DbEventStore::new();
    for i in 0..5 {
        store.append(
            &DomainEvent::BookRenamed(BookRenamed { id: i, name: format!("name{}", i) }),
            &mut uow,
        );
    }
    assert_eq!(tables.stored_event.len(), 0);
    assert!(tables.commit(&mut uow));
    assert_eq!(tables.stored_event.len(), 5);
    assert_eq!(
        tables.stored_event[3],
        (String::from("book_renamed"), String::from("{\"BookRenamed\":{\"id\":3,\"name\":\"name3\"}}"))
    );
    assert!(tables.book.is_empty());
    assert!(tables.author_book.is_empty());
    assert!(tables.author.is_empty());
}

#[test]
fn appended_events_without_a_commit_leave_no_row() {
    let tables = Tables::default();
    let mut uow = DbUoW::new();
    let store = DbEventStore::new();
    for i in 0..3 {
        store.append(
            &DomainEvent::AuthorCreated(AuthorCreated {
                id: i,
                first_name: String::from("f"),
                last_name: String::from("l"),
                full_name: String::from("f l"),
            }),
            &mut uow,
        );
    }
    assert_eq!(tables.stored_event.len(), 0);
}

#[test]
fn created_author_is_read_as_they_were_created() {
    let mut tables = Tables::default();
    let mut uow = DbUoW::new();
    let batch = catalog::application::author::create(
        1,
        "Ada",
        "Lovelace",
        &DbAuthorRepository::new(),
        DbEventStore::new(),
        &mut uow,
    )
    .unwrap();
    for statement in &batch {
        assert!(tables.apply(statement));
    }
    assert_eq!(tables.author_row(1).unwrap().full_name, "Ada Lovelace");
    assert_eq!(tables.stored_event.len(), 1);
    assert_eq!(tables.stored_event[0].0, "author_created");
    assert!(tables.stored_event[0].1.contains("\"first_name\":\"Ada\""));
    let author = DbAuthorRepository::new().by_id(tables.author_row(1)).unwrap();
    assert_eq!(author.id(), 1);
    assert_eq!(author.first_name(), "Ada");
    assert_eq!(author.last_name(), "Lovelace");
    assert_eq!(author.full_name(), "Ada Lovelace");
}

#[test]
fn updated_author_is_read_as_they_were_changed() {
    let mut tables = Tables::default();
    let mut uow = DbUoW::new();
    let repo = DbAuthorRepository::new();
    let mut publisher: DomainEventPublisher<EventStoreHandler<DbEventStore>> =
        DomainEventPublisher::new();
    let mut author = Author::new(1, "f1", "l1", &mut publisher, &mut uow);
    repo.create(&author, &mut uow);
    assert!(tables.commit(&mut uow));
    author.update("f1-renamed", "l1-renamed", &mut publisher, &mut uow);
    repo.update(&author, &mut uow);
    assert!(tables.commit(&mut uow));
    let reloaded = repo.by_id(tables.author_row(1)).unwrap();
    assert_eq!(reloaded.first_name(), "f1-renamed");
    assert_eq!(reloaded.last_name(), "l1-renamed");
    assert_eq!(reloaded.full_name(), "f1-renamed l1-renamed");
}

#[test]
fn batch_with_a_taken_identity_writes_nothing() {
    let mut tables = Tables::default();
    let mut uow = DbUoW::new();
    let repo = DbBookRepository::new();
    repo.create(&Book::materialize(1, "one", 10, vec![1]), &mut uow);
    assert!(tables.commit(&mut uow));
    DbEventStore::new()
        .append(&DomainEvent::BookRenamed(BookRenamed { id: 1, name: String::from("x") }), &mut uow);
    repo.create(&Book::materialize(1, "again", 10, vec![2]), &mut uow);
    assert!(!tables.commit(&mut uow));
    assert_eq!(tables.stored_event.len(), 0);
    assert_eq!(repo.by_id(&tables.book_rows(1)).unwrap().name(), "one");
    assert_eq!(uow.commit(), Ok(vec![]));
}
