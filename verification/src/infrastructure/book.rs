//! The repository of books on the relational backing.

use super::{DbUoW, DbUoWView, Statement, StatementView};
use crate::domain::book::{Book, BookRepository, BookView};
use vstd::prelude::*;

verus! {

/// One row of the join of `book` with `author_book`: a book with one of its
/// authors.
#[derive(Debug, Clone, PartialEq, Eq)]
pub struct BookRow {
    pub id: i32,
    pub name: String,
    pub pages_count: i32,
    pub author_id: i32,
}

/// A row of the join as a mathematical value.
pub struct BookRowView {
    pub id: i32,
    pub name: Seq<char>,
    pub pages_count: i32,
    pub author_id: i32,
}

impl View for BookRow {
    type V = BookRowView;

    open spec fn view(&self) -> BookRowView {
        BookRowView {
            id: self.id,
            name: self.name@,
            pages_count: self.pages_count,
            author_id: self.author_id,
        }
    }
}

/// The values of a list of rows.
pub open spec fn book_row_views(rows: Seq<BookRow>) -> Seq<BookRowView> {
    rows.map_values(|row: BookRow| row@)
}

/// The rows of `author_book` that tie `book_id` to each of `authors`, in the
/// order of `authors`.
pub open spec fn author_links(authors: Seq<i32>, book_id: i32) -> Seq<StatementView> {
    authors.map_values(|author_id: i32| StatementView::InsertAuthorBook { author_id, book_id })
}

/// The writes that make a new book durable: its row, then one row for each of
/// its authors.
pub open spec fn create_statements(book: BookView) -> Seq<StatementView> {
    seq![
        StatementView::InsertBook { id: book.id, name: book.name, pages_count: book.pages_count },
    ] + author_links(book.authors, book.id)
}

/// The writes that make a changed book durable: its row, then all rows of its
/// authors anew, the former ones being deleted first whichever they were.
pub open spec fn update_statements(book: BookView) -> Seq<StatementView> {
    seq![
        StatementView::UpdateBook { id: book.id, name: book.name, pages_count: book.pages_count },
        StatementView::DeleteAuthorBook { book_id: book.id },
    ] + author_links(book.authors, book.id)
}

/// The book that the rows of a join hold: the first row gives the book, every
/// row one author. No row, no book.
pub open spec fn book_of_rows(rows: Seq<BookRowView>) -> Option<BookView> {
    if rows.len() == 0 {
        None
    } else {
        Some(
            BookView {
                id: rows[0].id,
                name: rows[0].name,
                pages_count: rows[0].pages_count,
                authors: rows.map_values(|row: BookRowView| row.author_id),
            },
        )
    }
}

/// Why a value of the identity sequence is no identity.
#[derive(Debug, Clone, Copy, PartialEq, Eq)]
pub enum IdentityError {
    /// The sequence has left the range of identities.
    OutOfRange,
}

/// The identity that a value of the identity sequence stands for: the value
/// itself, as long as it is in the range of identities.
pub open spec fn identity_of(sequence_value: i64) -> Result<i32, IdentityError> {
    if i32::MIN <= sequence_value <= i32::MAX {
        Ok(sequence_value as i32)
    } else {
        Err(IdentityError::OutOfRange)
    }
}

/// As the sequence goes up, so do the identities: of two values of the
/// sequence that are in the range of identities, the later one stands for
/// another, greater identity.
pub proof fn lemma_identities_increase(earlier: i64, later: i64)
    requires
        i32::MIN <= earlier < later <= i32::MAX,
    ensures
        identity_of(earlier) is Ok,
        identity_of(later) is Ok,
        identity_of(earlier)->Ok_0 < identity_of(later)->Ok_0,
        identity_of(earlier) != identity_of(later),
{
}

/// The repository of books: it turns a book into the writes that make it
/// durable, and the rows of a query into a book.
#[derive(Debug)]
pub struct DbBookRepository {}

impl DbBookRepository {
    pub fn new() -> (repository: Self)
        ensures
            repository == (DbBookRepository {  }),
    {
        Self {  }
    }

    fn link_authors(&self, book: &Book, uow: &mut DbUoW)
        ensures
            final(uow)@ == old(uow)@.queued_all(author_links(book@.authors, book@.id)),
    {
        let authors = book.authors();
        let id = book.id();
        let mut i: usize = 0;
        while i < authors.len()
            invariant
                authors@ == book@.authors,
                id == book@.id,
                i <= authors@.len(),
                uow@ == old(uow)@.queued_all(author_links(authors@.take(i as int), id)),
            decreases authors@.len() - i,
        {
            uow.add(Statement::InsertAuthorBook { author_id: authors[i], book_id: id });
            proof {
                assert(uow@.pending == old(uow)@.queued_all(
                    author_links(authors@.take(i + 1), id),
                ).pending);
            }
            i += 1;
        }
        proof {
            assert(authors@.take(authors@.len() as int) == authors@);
        }
    }

    /// The identity that a value of the sequence of `book` stands for.
    pub fn next_identity(&self, sequence_value: i64) -> (r: Result<i32, IdentityError>)
        ensures
            r == identity_of(sequence_value),
    {
        if sequence_value < i32::MIN as i64 || sequence_value > i32::MAX as i64 {
            Err(IdentityError::OutOfRange)
        } else {
            Ok(sequence_value as i32)
        }
    }

    /// Rebuilds the book that the rows of the query by identity hold. Nothing
    /// is published. Without rows there is no book.
    pub fn by_id(&self, rows: &Vec<BookRow>) -> (book: Option<Book>)
        ensures
            match book {
                Some(book) => book_of_rows(book_row_views(rows@)) == Some(book@),
                None => book_of_rows(book_row_views(rows@)) is None,
            },
    {
        if rows.len() == 0 {
            return None;
        }
        let mut authors: Vec<i32> = Vec::new();
        let mut i: usize = 0;
        while i < rows.len()
            invariant
                i <= rows@.len(),
                authors@ == book_row_views(rows@).take(i as int).map_values(
                    |row: BookRowView| row.author_id,
                ),
            decreases rows@.len() - i,
        {
            authors.push(rows[i].author_id);
            i += 1;
        }
        proof {
            let views = book_row_views(rows@);
            assert(views.take(rows@.len() as int) == views);
        }
        let first = &rows[0];
        Some(Book::materialize(first.id, first.name.as_str(), first.pages_count, authors))
    }
}

impl BookRepository<DbUoW> for DbBookRepository {
    open spec fn created(&self, book: BookView, before: DbUoWView) -> DbUoWView {
        before.queued_all(create_statements(book))
    }

    open spec fn updated(&self, book: BookView, before: DbUoWView) -> DbUoWView {
        before.queued_all(update_statements(book))
    }

    fn create(&self, book: &Book, uow: &mut DbUoW) {
        uow.add(
            Statement::InsertBook {
                id: book.id(),
                name: book.name().to_owned(),
                pages_count: book.pages_count(),
            },
        );
        self.link_authors(book, uow);
        assert(uow@.pending == old(uow)@.queued_all(create_statements(book@)).pending);
    }

    fn update(&self, book: &Book, uow: &mut DbUoW) {
        uow.add(
            Statement::UpdateBook {
                id: book.id(),
                name: book.name().to_owned(),
                pages_count: book.pages_count(),
            },
        );
        uow.add(Statement::DeleteAuthorBook { book_id: book.id() });
        self.link_authors(book, uow);
        assert(uow@.pending == old(uow)@.queued_all(update_statements(book@)).pending);
    }
}

} // verus!
