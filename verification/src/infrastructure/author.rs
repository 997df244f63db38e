//! The repository of authors on the relational backing.

use super::{DbUoW, DbUoWView, Statement, StatementView};
use crate::domain::author::{Author, AuthorRepository, AuthorView};
use vstd::prelude::*;

verus! {

/// One row of `author`.
#[derive(Debug, Clone, PartialEq, Eq)]
pub struct AuthorRow {
    pub id: i32,
    pub first_name: String,
    pub last_name: String,
    pub full_name: String,
}

/// A row of `author` as a mathematical value.
pub struct AuthorRowView {
    pub id: i32,
    pub first_name: Seq<char>,
    pub last_name: Seq<char>,
    pub full_name: Seq<char>,
}

impl View for AuthorRow {
    type V = AuthorRowView;

    open spec fn view(&self) -> AuthorRowView {
        AuthorRowView {
            id: self.id,
            first_name: self.first_name@,
            last_name: self.last_name@,
            full_name: self.full_name@,
        }
    }
}

impl AuthorRowView {
    /// The author that the row holds.
    pub open spec fn author(self) -> AuthorView {
        AuthorView {
            id: self.id,
            first_name: self.first_name,
            last_name: self.last_name,
            full_name: self.full_name,
        }
    }
}

impl AuthorView {
    /// The write that makes a new author durable.
    pub open spec fn insert(self) -> StatementView {
        StatementView::InsertAuthor {
            id: self.id,
            first_name: self.first_name,
            last_name: self.last_name,
            full_name: self.full_name,
        }
    }

    /// The write that makes the present names of an author durable.
    pub open spec fn rewrite(self) -> StatementView {
        StatementView::UpdateAuthor {
            id: self.id,
            first_name: self.first_name,
            last_name: self.last_name,
            full_name: self.full_name,
        }
    }
}

/// The repository of authors: it turns an author into the write that makes
/// them durable, and the row of a query into an author.
#[derive(Debug)]
pub struct DbAuthorRepository {}

impl DbAuthorRepository {
    pub fn new() -> (repository: Self)
        ensures
            repository == (DbAuthorRepository {  }),
    {
        Self {  }
    }

    /// Rebuilds the author that the row of the query by identity holds.
    /// Nothing is published. Without a row there is no author.
    pub fn by_id(&self, row: Option<&AuthorRow>) -> (author: Option<Author>)
        ensures
            match (row, author) {
                (Some(row), Some(author)) => author@ == row@.author(),
                (None, None) => true,
                _ => false,
            },
    {
        match row {
            Some(row) => Some(
                Author::materialize(
                    row.id,
                    row.first_name.as_str(),
                    row.last_name.as_str(),
                    row.full_name.as_str(),
                ),
            ),
            None => None,
        }
    }
}

impl AuthorRepository<DbUoW> for DbAuthorRepository {
    open spec fn created(&self, author: AuthorView, before: DbUoWView) -> DbUoWView {
        before.queued(author.insert())
    }

    open spec fn updated(&self, author: AuthorView, before: DbUoWView) -> DbUoWView {
        before.queued(author.rewrite())
    }

    fn create(&self, author: &Author, uow: &mut DbUoW) {
        uow.add(
            Statement::InsertAuthor {
                id: author.id(),
                first_name: author.first_name().to_owned(),
                last_name: author.last_name().to_owned(),
                full_name: author.full_name().to_owned(),
            },
        );
    }

    fn update(&self, author: &Author, uow: &mut DbUoW) {
        uow.add(
            Statement::UpdateAuthor {
                id: author.id(),
                first_name: author.first_name().to_owned(),
                last_name: author.last_name().to_owned(),
                full_name: author.full_name().to_owned(),
            },
        );
    }
}

} // verus!
