//! The relational backing of the catalog: the statements that stand for its
//! writes, the unit of work that collects them, and the event store and the
//! repositories that queue them.

pub mod author;
pub mod book;
pub mod payload;
pub mod tables;

use crate::application::{EventStore, StoredEvent, UoW};
use crate::domain::{DomainEvent, DomainEventView};
use payload::{payload, payload_of};
use vstd::prelude::*;

verus! {

/// A value bound to a placeholder of a statement.
#[derive(Debug, Clone, PartialEq, Eq)]
pub enum Param {
    Int(i32),
    Text(String),
}

/// A parameter as a mathematical value.
pub enum ParamView {
    Int(i32),
    Text(Seq<char>),
}

impl View for Param {
    type V = ParamView;

    open spec fn view(&self) -> ParamView {
        match self {
            Param::Int(i) => ParamView::Int(*i),
            Param::Text(s) => ParamView::Text(s@),
        }
    }
}

/// A pending write, held by value: what is to be written where. The values
/// never become part of a statement's text.
#[derive(Debug, Clone, PartialEq, Eq)]
pub enum Statement {
    InsertBook { id: i32, name: String, pages_count: i32 },
    UpdateBook { id: i32, name: String, pages_count: i32 },
    InsertAuthorBook { author_id: i32, book_id: i32 },
    DeleteAuthorBook { book_id: i32 },
    InsertAuthor { id: i32, first_name: String, last_name: String, full_name: String },
    UpdateAuthor { id: i32, first_name: String, last_name: String, full_name: String },
    InsertStoredEvent { name: String, payload: String },
}

/// A statement as a mathematical value.
pub enum StatementView {
    InsertBook { id: i32, name: Seq<char>, pages_count: i32 },
    UpdateBook { id: i32, name: Seq<char>, pages_count: i32 },
    InsertAuthorBook { author_id: i32, book_id: i32 },
    DeleteAuthorBook { book_id: i32 },
    InsertAuthor { id: i32, first_name: Seq<char>, last_name: Seq<char>, full_name: Seq<char> },
    UpdateAuthor { id: i32, first_name: Seq<char>, last_name: Seq<char>, full_name: Seq<char> },
    InsertStoredEvent { name: Seq<char>, payload: Seq<char> },
}

impl View for Statement {
    type V = StatementView;

    open spec fn view(&self) -> StatementView {
        match self {
            Statement::InsertBook { id, name, pages_count } => StatementView::InsertBook {
                id: *id,
                name: name@,
                pages_count: *pages_count,
            },
            Statement::UpdateBook { id, name, pages_count } => StatementView::UpdateBook {
                id: *id,
                name: name@,
                pages_count: *pages_count,
            },
            Statement::InsertAuthorBook { author_id, book_id } => StatementView::InsertAuthorBook {
                author_id: *author_id,
                book_id: *book_id,
            },
            Statement::DeleteAuthorBook { book_id } => StatementView::DeleteAuthorBook {
                book_id: *book_id,
            },
            Statement::InsertAuthor {
                id,
                first_name,
                last_name,
                full_name,
            } => StatementView::InsertAuthor {
                id: *id,
                first_name: first_name@,
                last_name: last_name@,
                full_name: full_name@,
            },
            Statement::UpdateAuthor {
                id,
                first_name,
                last_name,
                full_name,
            } => StatementView::UpdateAuthor {
                id: *id,
                first_name: first_name@,
                last_name: last_name@,
                full_name: full_name@,
            },
            Statement::InsertStoredEvent { name, payload } => StatementView::InsertStoredEvent {
                name: name@,
                payload: payload@,
            },
        }
    }
}

impl StatementView {
    /// The text of the statement, with a numbered placeholder for each value.
    pub open spec fn sql(self) -> Seq<char> {
        match self {
            StatementView::InsertBook { .. } => "insert into book(id, name, pages_count) values ($1, $2, $3)"@,
            StatementView::UpdateBook { .. } => "update book set name = $2, pages_count = $3 where id = $1"@,
            StatementView::InsertAuthorBook { .. } => "insert into author_book(author_id, book_id) values ($1, $2)"@,
            StatementView::DeleteAuthorBook { .. } => "delete from author_book where book_id = $1"@,
            StatementView::InsertAuthor { .. } => "insert into author(id, first_name, last_name, full_name) values ($1, $2, $3, $4)"@,
            StatementView::UpdateAuthor { .. } => "update author set first_name = $2, last_name = $3, full_name = $4 where id = $1"@,
            StatementView::InsertStoredEvent { .. } => "insert into stored_event(name, payload) values ($1, $2)"@,
        }
    }

    /// The values of the statement, in the order of its placeholders.
    pub open spec fn params(self) -> Seq<ParamView> {
        match self {
            StatementView::InsertBook { id, name, pages_count } => seq![
                ParamView::Int(id),
                ParamView::Text(name),
                ParamView::Int(pages_count),
            ],
            StatementView::UpdateBook { id, name, pages_count } => seq![
                ParamView::Int(id),
                ParamView::Text(name),
                ParamView::Int(pages_count),
            ],
            StatementView::InsertAuthorBook { author_id, book_id } => seq![
                ParamView::Int(author_id),
                ParamView::Int(book_id),
            ],
            StatementView::DeleteAuthorBook { book_id } => seq![ParamView::Int(book_id)],
            StatementView::InsertAuthor { id, first_name, last_name, full_name } => seq![
                ParamView::Int(id),
                ParamView::Text(first_name),
                ParamView::Text(last_name),
                ParamView::Text(full_name),
            ],
            StatementView::UpdateAuthor { id, first_name, last_name, full_name } => seq![
                ParamView::Int(id),
                ParamView::Text(first_name),
                ParamView::Text(last_name),
                ParamView::Text(full_name),
            ],
            StatementView::InsertStoredEvent { name, payload } => seq![
                ParamView::Text(name),
                ParamView::Text(payload),
            ],
        }
    }
}

/// The values of a list of parameters.
pub open spec fn param_views(params: Seq<Param>) -> Seq<ParamView> {
    params.map_values(|p: Param| p@)
}

/// The values of a list of statements.
pub open spec fn statement_views(statements: Seq<Statement>) -> Seq<StatementView> {
    statements.map_values(|s: Statement| s@)
}

impl Statement {
    pub fn sql(&self) -> (sql: &'static str)
        ensures
            sql@ == self@.sql(),
    {
        match self {
            Statement::InsertBook { .. } => "insert into book(id, name, pages_count) values ($1, $2, $3)",
            Statement::UpdateBook { .. } => "update book set name = $2, pages_count = $3 where id = $1",
            Statement::InsertAuthorBook { .. } => "insert into author_book(author_id, book_id) values ($1, $2)",
            Statement::DeleteAuthorBook { .. } => "delete from author_book where book_id = $1",
            Statement::InsertAuthor { .. } => "insert into author(id, first_name, last_name, full_name) values ($1, $2, $3, $4)",
            Statement::UpdateAuthor { .. } => "update author set first_name = $2, last_name = $3, full_name = $4 where id = $1",
            Statement::InsertStoredEvent { .. } => "insert into stored_event(name, payload) values ($1, $2)",
        }
    }

    pub fn params(&self) -> (params: Vec<Param>)
        ensures
            param_views(params@) == self@.params(),
    {
        let mut params: Vec<Param> = Vec::new();
        match self {
            Statement::InsertBook { id, name, pages_count } => {
                params.push(Param::Int(*id));
                params.push(Param::Text(name.clone()));
                params.push(Param::Int(*pages_count));
            },
            Statement::UpdateBook { id, name, pages_count } => {
                params.push(Param::Int(*id));
                params.push(Param::Text(name.clone()));
                params.push(Param::Int(*pages_count));
            },
            Statement::InsertAuthorBook { author_id, book_id } => {
                params.push(Param::Int(*author_id));
                params.push(Param::Int(*book_id));
            },
            Statement::DeleteAuthorBook { book_id } => {
                params.push(Param::Int(*book_id));
            },
            Statement::InsertAuthor { id, first_name, last_name, full_name } => {
                params.push(Param::Int(*id));
                params.push(Param::Text(first_name.clone()));
                params.push(Param::Text(last_name.clone()));
                params.push(Param::Text(full_name.clone()));
            },
            Statement::UpdateAuthor { id, first_name, last_name, full_name } => {
                params.push(Param::Int(*id));
                params.push(Param::Text(first_name.clone()));
                params.push(Param::Text(last_name.clone()));
                params.push(Param::Text(full_name.clone()));
            },
            Statement::InsertStoredEvent { name, payload } => {
                params.push(Param::Text(name.clone()));
                params.push(Param::Text(payload.clone()));
            },
        }
        params
    }
}

/// A read, held by value like a write.
#[derive(Debug, Clone, Copy, PartialEq, Eq)]
pub enum Query {
    /// The next value of the identity sequence of `book`.
    NextBookIdentity,
    /// The next value of the identity sequence of `author`.
    NextAuthorIdentity,
    /// The book `id`, one row for each of its authors.
    BookById { id: i32 },
    /// The author `id`.
    AuthorById { id: i32 },
}

impl Query {
    /// The text of the query, with a numbered placeholder for each value.
    pub open spec fn sql_text(self) -> Seq<char> {
        match self {
            Query::NextBookIdentity => "select nextval('book_id_seq')"@,
            Query::NextAuthorIdentity => "select nextval(pg_get_serial_sequence('author', 'id'))"@,
            Query::BookById { .. } => "select * from book inner join author_book on author_book.book_id = id where id = $1"@,
            Query::AuthorById { .. } => "select * from author where id = $1"@,
        }
    }

    /// The values of the query, in the order of its placeholders.
    pub open spec fn param_values(self) -> Seq<ParamView> {
        match self {
            Query::NextBookIdentity => Seq::empty(),
            Query::NextAuthorIdentity => Seq::empty(),
            Query::BookById { id } => seq![ParamView::Int(id)],
            Query::AuthorById { id } => seq![ParamView::Int(id)],
        }
    }

    pub fn sql(&self) -> (sql: &'static str)
        ensures
            sql@ == self.sql_text(),
    {
        match self {
            Query::NextBookIdentity => "select nextval('book_id_seq')",
            Query::NextAuthorIdentity => "select nextval(pg_get_serial_sequence('author', 'id'))",
            Query::BookById { .. } => "select * from book inner join author_book on author_book.book_id = id where id = $1",
            Query::AuthorById { .. } => "select * from author where id = $1",
        }
    }

    pub fn params(&self) -> (params: Vec<Param>)
        ensures
            param_views(params@) == self.param_values(),
    {
        let mut params: Vec<Param> = Vec::new();
        match self {
            Query::NextBookIdentity => {},
            Query::NextAuthorIdentity => {},
            Query::BookById { id } => {
                params.push(Param::Int(*id));
            },
            Query::AuthorById { id } => {
                params.push(Param::Int(*id));
            },
        }
        params
    }
}

/// Why a unit of work hands out no batch.
#[derive(Debug, Clone, Copy, PartialEq, Eq)]
pub enum CommitError {
    /// The use case was given up before the commit; nothing may be written.
    Aborted,
}

/// The unit of work of one use case: the writes that wait for the commit, in
/// the order in which they were added.
#[derive(Debug)]
pub struct DbUoW {
    queries: Vec<Statement>,
    aborted: bool,
}

/// A unit of work as a mathematical value.
pub struct DbUoWView {
    pub pending: Seq<StatementView>,
    pub aborted: bool,
}

impl DbUoWView {
    /// A unit of work that holds nothing yet.
    pub open spec fn fresh() -> DbUoWView {
        DbUoWView { pending: Seq::empty(), aborted: false }
    }

    /// With one more write at the end. A unit of work that was given up takes
    /// no more writes.
    pub open spec fn queued(self, statement: StatementView) -> DbUoWView {
        if self.aborted {
            self
        } else {
            DbUoWView { pending: self.pending.push(statement), aborted: false }
        }
    }

    /// With several more writes at the end.
    pub open spec fn queued_all(self, statements: Seq<StatementView>) -> DbUoWView {
        if self.aborted {
            self
        } else {
            DbUoWView { pending: self.pending + statements, aborted: false }
        }
    }

    /// Given up: the pending writes are dropped, and none will be taken.
    pub open spec fn discarded(self) -> DbUoWView {
        DbUoWView { pending: Seq::empty(), aborted: true }
    }

    /// After a commit: nothing is pending.
    pub open spec fn emptied(self) -> DbUoWView {
        DbUoWView { pending: Seq::empty(), aborted: self.aborted }
    }
}

impl View for DbUoW {
    type V = DbUoWView;

    closed spec fn view(&self) -> DbUoWView {
        DbUoWView { pending: statement_views(self.queries@), aborted: self.aborted }
    }
}

impl DbUoW {
    pub fn new() -> (uow: Self)
        ensures
            uow@ == DbUoWView::fresh(),
    {
        let uow = Self { queries: Vec::new(), aborted: false };
        assert(uow@.pending =~= Seq::empty());
        uow
    }

    /// Queues `query` behind the writes that are already pending.
    pub fn add(&mut self, query: Statement)
        ensures
            final(self)@ == old(self)@.queued(query@),
    {
        if !self.aborted {
            self.queries.push(query);
            assert(statement_views(self.queries@) =~= statement_views(old(self).queries@).push(
                query@,
            ));
        }
    }

    /// Gives the use case up: drops what is pending and lets the commit fail.
    pub fn abort(&mut self)
        ensures
            final(self)@ == old(self)@.discarded(),
    {
        self.queries = Vec::new();
        self.aborted = true;
        assert(statement_views(self.queries@) =~= Seq::empty());
    }
}

impl UoW for DbUoW {
    type Batch = Result<Vec<Statement>, CommitError>;

    /// The commit leaves nothing pending, whatever comes of it. It hands out
    /// all that was pending, in order, unless the unit of work was given up.
    open spec fn commits(before: DbUoWView, batch: Self::Batch, after: DbUoWView) -> bool {
        &&& after == before.emptied()
        &&& match batch {
            Ok(statements) => !before.aborted && statement_views(statements@) == before.pending,
            Err(error) => before.aborted && error == CommitError::Aborted,
        }
    }

    fn commit(&mut self) -> (batch: Self::Batch) {
        let mut statements: Vec<Statement> = Vec::new();
        std::mem::swap(&mut self.queries, &mut statements);
        assert(statement_views(self.queries@) =~= Seq::empty());
        if self.aborted {
            Err(CommitError::Aborted)
        } else {
            Ok(statements)
        }
    }
}

/// The event store on the relational backing: an event becomes a row of the
/// table `stored_event`.
#[derive(Debug)]
pub struct DbEventStore {}

impl DbEventStore {
    pub fn new() -> (event_store: Self)
        ensures
            event_store == (DbEventStore {  }),
    {
        Self {  }
    }
}

/// The unit of work once `e` is appended to it: one more insert, which holds
/// the name and the payload of the event; where the event has no payload, the
/// unit of work is given up.
pub open spec fn event_appended(e: DomainEventView, before: DbUoWView) -> DbUoWView {
    match payload_of(e) {
        Some(payload) => before.queued(StatementView::InsertStoredEvent { name: e.name(), payload }),
        None => before.discarded(),
    }
}

impl EventStore<DbUoW> for DbEventStore {
    open spec fn appended(&self, e: DomainEventView, before: DbUoWView) -> DbUoWView {
        event_appended(e, before)
    }

    fn append(&self, domain_event: &DomainEvent, uow: &mut DbUoW) {
        let name = domain_event.domain_event_name();
        match payload(domain_event) {
            Ok(payload) => {
                let stored_event = StoredEvent::new(name, payload.as_str());
                uow.add(
                    Statement::InsertStoredEvent {
                        name: stored_event.name().to_owned(),
                        payload: stored_event.playload().to_owned(),
                    },
                );
            },
            Err(_) => {
                uow.abort();
            },
        }
    }
}

} // verus!
