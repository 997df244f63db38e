//! What the statements mean: the tables of the backing store as a
//! mathematical value, and what each statement makes of them. Nothing here
//! runs; it is what the repositories and the event store are held to.

use super::author::AuthorRowView;
use super::book::{author_links, book_of_rows, create_statements, update_statements, BookRowView};
use super::payload::payload_of;
use super::{event_appended, DbUoWView, StatementView};
use crate::application::StoredEventView;
use crate::domain::author::AuthorView;
use crate::domain::book::BookView;
use crate::domain::DomainEventView;
use vstd::prelude::*;

verus! {

/// A row of `book`, without its key.
pub struct BookRecord {
    pub name: Seq<char>,
    pub pages_count: i32,
}

/// A row of `author`, without its key.
pub struct AuthorRecord {
    pub first_name: Seq<char>,
    pub last_name: Seq<char>,
    pub full_name: Seq<char>,
}

/// A row of `author_book`.
pub struct Link {
    pub author_id: i32,
    pub book_id: i32,
}

/// The four tables. `book` and `author` have `id` as their key; `author_book`
/// and `stored_event` keep their rows in the order in which they came.
pub struct Tables {
    pub book: Map<i32, BookRecord>,
    pub author_book: Seq<Link>,
    pub author: Map<i32, AuthorRecord>,
    pub stored_event: Seq<StoredEventView>,
}

/// The links of `book_id` with each of `authors`, in the order of `authors`.
pub open spec fn links(authors: Seq<i32>, book_id: i32) -> Seq<Link> {
    authors.map_values(|author_id: i32| Link { author_id, book_id })
}

impl Tables {
    /// The tables after one statement, or `None` where the store refuses it:
    /// an insert under a key that is taken. An update or a delete that finds
    /// no row changes nothing.
    pub open spec fn apply(self, statement: StatementView) -> Option<Tables> {
        match statement {
            StatementView::InsertBook { id, name, pages_count } => if self.book.dom().contains(id) {
                None
            } else {
                Some(Tables { book: self.book.insert(id, BookRecord { name, pages_count }), ..self })
            },
            StatementView::UpdateBook { id, name, pages_count } => if self.book.dom().contains(id) {
                Some(Tables { book: self.book.insert(id, BookRecord { name, pages_count }), ..self })
            } else {
                Some(self)
            },
            StatementView::InsertAuthorBook { author_id, book_id } => Some(
                Tables { author_book: self.author_book.push(Link { author_id, book_id }), ..self },
            ),
            StatementView::DeleteAuthorBook { book_id } => Some(
                Tables {
                    author_book: self.author_book.filter(|link: Link| link.book_id != book_id),
                    ..self
                },
            ),
            StatementView::InsertAuthor { id, first_name, last_name, full_name } => if self.author.dom().contains(
                id,
            ) {
                None
            } else {
                Some(
                    Tables {
                        author: self.author.insert(
                            id,
                            AuthorRecord { first_name, last_name, full_name },
                        ),
                        ..self
                    },
                )
            },
            StatementView::UpdateAuthor { id, first_name, last_name, full_name } => if self.author.dom().contains(
                id,
            ) {
                Some(
                    Tables {
                        author: self.author.insert(
                            id,
                            AuthorRecord { first_name, last_name, full_name },
                        ),
                        ..self
                    },
                )
            } else {
                Some(self)
            },
            StatementView::InsertStoredEvent { name, payload } => Some(
                Tables {
                    stored_event: self.stored_event.push(StoredEventView { name, payload }),
                    ..self
                },
            ),
        }
    }

    /// The tables after all of `statements`, one after the other, or `None`
    /// where the store refuses one of them.
    pub open spec fn apply_all(self, statements: Seq<StatementView>) -> Option<Tables>
        decreases statements.len(),
    {
        if statements.len() == 0 {
            Some(self)
        } else {
            match self.apply_all(statements.drop_last()) {
                Some(tables) => tables.apply(statements.last()),
                None => None,
            }
        }
    }

    /// The tables after the commit of `batch`: all of it is written, or, where
    /// the store refuses one statement, none of it.
    pub open spec fn committed(self, batch: Seq<StatementView>) -> Tables {
        match self.apply_all(batch) {
            Some(tables) => tables,
            None => self,
        }
    }

    /// Whether `id` has never stood for a book: no row of `book` and no row of
    /// `author_book` bears it.
    pub open spec fn book_unused(self, id: i32) -> bool {
        &&& !self.book.dom().contains(id)
        &&& forall|i: int| 0 <= i < self.author_book.len() ==> self.author_book[i].book_id != id
    }

    /// The rows of `book` joined with `author_book` that the query for the
    /// book `id` finds, in the order of `author_book`.
    pub open spec fn book_rows(self, id: i32) -> Seq<BookRowView> {
        if self.book.dom().contains(id) {
            self.author_book.filter(|link: Link| link.book_id == id).map_values(
                |link: Link|
                    BookRowView {
                        id,
                        name: self.book[id].name,
                        pages_count: self.book[id].pages_count,
                        author_id: link.author_id,
                    },
            )
        } else {
            Seq::empty()
        }
    }

    /// The row of `author` that the query for the author `id` finds.
    pub open spec fn author_row(self, id: i32) -> Option<AuthorRowView> {
        if self.author.dom().contains(id) {
            Some(
                AuthorRowView {
                    id,
                    first_name: self.author[id].first_name,
                    last_name: self.author[id].last_name,
                    full_name: self.author[id].full_name,
                },
            )
        } else {
            None
        }
    }
}

/// Statements applied in two parts are applied as a whole.
pub proof fn lemma_apply_all_concat(
    tables: Tables,
    first: Seq<StatementView>,
    second: Seq<StatementView>,
)
    ensures
        tables.apply_all(first + second) == match tables.apply_all(first) {
            Some(between) => between.apply_all(second),
            None => None,
        },
    decreases second.len(),
{
    if second.len() > 0 {
        lemma_apply_all_concat(tables, first, second.drop_last());
        assert((first + second).drop_last() == first + second.drop_last());
    }
}

/// A single statement is applied as itself.
pub proof fn lemma_apply_all_one(tables: Tables, statement: StatementView)
    ensures
        tables.apply_all(seq![statement]) == tables.apply(statement),
{
    assert(tables.apply_all(seq![statement].drop_last()) == Some(tables));
}

/// The inserts into `author_book` are never refused, and add their links at
/// the end.
pub proof fn lemma_apply_author_links(tables: Tables, authors: Seq<i32>, book_id: i32)
    ensures
        tables.apply_all(author_links(authors, book_id)) == Some(
            Tables { author_book: tables.author_book + links(authors, book_id), ..tables },
        ),
    decreases authors.len(),
{
    if authors.len() > 0 {
        lemma_apply_author_links(tables, authors.drop_last(), book_id);
        assert(author_links(authors, book_id).drop_last() == author_links(
            authors.drop_last(),
            book_id,
        ));
        assert(tables.author_book + links(authors, book_id) == (tables.author_book + links(
            authors.drop_last(),
            book_id,
        )).push(Link { author_id: authors.last(), book_id }));
    }
}

/// What a filter keeps has passed it.
proof fn lemma_filter_passes<A>(s: Seq<A>, pred: spec_fn(A) -> bool)
    ensures
        forall|i: int| 0 <= i < s.filter(pred).len() ==> pred(#[trigger] s.filter(pred)[i]),
    decreases s.len(),
{
    reveal(Seq::filter);
    if s.len() != 0 {
        lemma_filter_passes(s.drop_last(), pred);
    }
}

/// A filter that every item passes keeps the sequence.
proof fn lemma_filter_keeps_all<A>(s: Seq<A>, pred: spec_fn(A) -> bool)
    requires
        forall|i: int| 0 <= i < s.len() ==> pred(#[trigger] s[i]),
    ensures
        s.filter(pred) == s,
    decreases s.len(),
{
    reveal(Seq::filter);
    if s.len() != 0 {
        lemma_filter_keeps_all(s.drop_last(), pred);
    }
}

/// A filter that no item passes leaves nothing.
proof fn lemma_filter_keeps_none<A>(s: Seq<A>, pred: spec_fn(A) -> bool)
    requires
        forall|i: int| 0 <= i < s.len() ==> !pred(#[trigger] s[i]),
    ensures
        s.filter(pred) == Seq::<A>::empty(),
    decreases s.len(),
{
    reveal(Seq::filter);
    if s.len() != 0 {
        lemma_filter_keeps_none(s.drop_last(), pred);
    }
}

/// The rows that the join finds for a book whose links are exactly those of
/// its authors, in their order.
pub open spec fn rows_of(book: BookView) -> Seq<BookRowView> {
    book.authors.map_values(
        |author_id: i32|
            BookRowView {
                id: book.id,
                name: book.name,
                pages_count: book.pages_count,
                author_id,
            },
    )
}

/// Where a table holds the row of `book` and, among the links of its identity,
/// exactly those of its authors, the join finds the rows of the book.
proof fn lemma_rows_of_linked_book(tables: Tables, book: BookView)
    requires
        tables.book.dom().contains(book.id),
        tables.book[book.id] == (BookRecord { name: book.name, pages_count: book.pages_count }),
        tables.author_book.filter(|link: Link| link.book_id == book.id) == links(
            book.authors,
            book.id,
        ),
    ensures
        tables.book_rows(book.id) == rows_of(book),
{
}

/// The rows of a new book, once its writes are applied to tables in which its
/// identity was never used.
pub proof fn lemma_rows_after_create(tables: Tables, book: BookView)
    requires
        tables.book_unused(book.id),
    ensures
        tables.apply_all(create_statements(book)) is Some,
        tables.committed(create_statements(book)).book_rows(book.id) == rows_of(book),
        tables.committed(create_statements(book)).stored_event == tables.stored_event,
{
    let insert = StatementView::InsertBook {
        id: book.id,
        name: book.name,
        pages_count: book.pages_count,
    };
    let with_book = tables.apply(insert)->0;
    lemma_apply_all_one(tables, insert);
    lemma_apply_all_concat(tables, seq![insert], author_links(book.authors, book.id));
    lemma_apply_author_links(with_book, book.authors, book.id);
    let after = tables.committed(create_statements(book));
    let of_book = |link: Link| link.book_id == book.id;
    Seq::filter_distributes_over_add(tables.author_book, links(book.authors, book.id), of_book);
    lemma_filter_keeps_none(tables.author_book, of_book);
    lemma_filter_keeps_all(links(book.authors, book.id), of_book);
    lemma_rows_of_linked_book(after, book);
}

/// The rows of a changed book, once its writes are applied to tables that
/// hold the book: whatever its links were, they are those of its authors now.
pub proof fn lemma_rows_after_update(tables: Tables, book: BookView)
    requires
        tables.book.dom().contains(book.id),
    ensures
        tables.apply_all(update_statements(book)) is Some,
        tables.committed(update_statements(book)).book_rows(book.id) == rows_of(book),
        tables.committed(update_statements(book)).stored_event == tables.stored_event,
{
    let update = StatementView::UpdateBook {
        id: book.id,
        name: book.name,
        pages_count: book.pages_count,
    };
    let delete = StatementView::DeleteAuthorBook { book_id: book.id };
    let updated = tables.apply(update)->0;
    let deleted = updated.apply(delete)->0;
    let head = seq![update, delete];
    assert(head.drop_last() == seq![update]);
    lemma_apply_all_one(tables, update);
    lemma_apply_all_concat(tables, head, author_links(book.authors, book.id));
    lemma_apply_author_links(deleted, book.authors, book.id);
    let after = tables.committed(update_statements(book));
    let of_book = |link: Link| link.book_id == book.id;
    let of_others = |link: Link| link.book_id != book.id;
    lemma_filter_passes(tables.author_book, of_others);
    Seq::filter_distributes_over_add(deleted.author_book, links(book.authors, book.id), of_book);
    lemma_filter_keeps_none(deleted.author_book, of_book);
    lemma_filter_keeps_all(links(book.authors, book.id), of_book);
    lemma_rows_of_linked_book(after, book);
}

/// In whatever order, and however often, the store hands out the rows of a
/// book, the book that is read from them has the identity, the name and the
/// number of pages of that book, and the same authors.
pub proof fn lemma_book_of_rows_in_any_order(book: BookView, rows: Seq<BookRowView>)
    requires
        book.authors.len() > 0,
        rows.to_set() == rows_of(book).to_set(),
    ensures
        book_of_rows(rows) is Some,
        book_of_rows(rows)->0.id == book.id,
        book_of_rows(rows)->0.name == book.name,
        book_of_rows(rows)->0.pages_count == book.pages_count,
        book_of_rows(rows)->0.authors.to_set() == book.authors.to_set(),
{
    let canonical = rows_of(book);
    let author_of = |row: BookRowView| row.author_id;
    assert(rows.to_set().contains(canonical[0]));
    assert(canonical.to_set().contains(rows[0]));
    rows.lemma_to_set_map_commutes(author_of);
    canonical.lemma_to_set_map_commutes(author_of);
    assert(canonical.map_values(author_of) == book.authors);
}

/// In the order in which they were written, the rows of a book give the book
/// back as it is.
pub proof fn lemma_book_of_rows_in_order(book: BookView)
    requires
        book.authors.len() > 0,
    ensures
        book_of_rows(rows_of(book)) == Some(book),
{
    let author_of = |row: BookRowView| row.author_id;
    assert(rows_of(book).map_values(author_of) == book.authors);
}

/// The unit of work of the use case that adds `book`: the creation of the book
/// is appended to the event store, then the rows of the book are queued.
pub open spec fn book_creation(book: BookView, before: DbUoWView) -> DbUoWView {
    event_appended(book.created(), before).queued_all(create_statements(book))
}

/// The unit of work of the use case that adds `author`: the creation of the
/// author is appended to the event store, then the row of the author is queued.
pub open spec fn author_creation(author: AuthorView, before: DbUoWView) -> DbUoWView {
    event_appended(author.created(), before).queued(author.insert())
}

/// A book that was added to the catalog under an identity that was never used
/// is there to be read: once the unit of work of the use case is committed,
/// the book that is read from the rows found for its identity, in whatever
/// order the store hands them out, has its name, its number of pages and its
/// authors. With the book its creation became durable: one row of
/// `stored_event`, and no other.
pub proof fn lemma_created_book_loads(tables: Tables, book: BookView, rows: Seq<BookRowView>)
    requires
        book.valid(),
        tables.book_unused(book.id),
        payload_of(book.created()) is Some,
        rows.to_set() == tables.committed(
            book_creation(book, DbUoWView::fresh()).pending,
        ).book_rows(book.id).to_set(),
    ensures
        book_of_rows(rows) is Some,
        book_of_rows(rows)->0.id == book.id,
        book_of_rows(rows)->0.name == book.name,
        book_of_rows(rows)->0.pages_count == book.pages_count,
        book_of_rows(rows)->0.authors.to_set() == book.authors.to_set(),
        tables.committed(book_creation(book, DbUoWView::fresh()).pending).stored_event
            == tables.stored_event.push(stored(book.created())),
{
    let event = StatementView::InsertStoredEvent {
        name: book.created().name(),
        payload: payload_of(book.created())->0,
    };
    let logged = tables.apply(event)->0;
    lemma_apply_all_one(tables, event);
    lemma_apply_all_concat(tables, seq![event], create_statements(book));
    lemma_rows_after_create(logged, book);
    lemma_book_of_rows_in_any_order(book, rows);
}

/// A book whose change was written is read as it was changed: once the writes
/// of the repository are committed to tables that hold the book, the book that
/// is read from the rows found for its identity has the new name, the new
/// number of pages and exactly the new authors. No former author is left.
pub proof fn lemma_updated_book_loads(tables: Tables, book: BookView, rows: Seq<BookRowView>)
    requires
        book.valid(),
        tables.book.dom().contains(book.id),
        rows.to_set() == tables.committed(
            DbUoWView::fresh().queued_all(update_statements(book)).pending,
        ).book_rows(book.id).to_set(),
    ensures
        book_of_rows(rows) is Some,
        book_of_rows(rows)->0.id == book.id,
        book_of_rows(rows)->0.name == book.name,
        book_of_rows(rows)->0.pages_count == book.pages_count,
        book_of_rows(rows)->0.authors.to_set() == book.authors.to_set(),
{
    lemma_rows_after_update(tables, book);
    lemma_book_of_rows_in_any_order(book, rows);
}

/// Two readings of the same tables agree: the books that are read from the
/// rows found for one identity, in whatever order the store hands them out
/// each time, have the same identity, name, number of pages and authors.
pub proof fn lemma_loads_agree(
    tables: Tables,
    id: i32,
    first: Seq<BookRowView>,
    second: Seq<BookRowView>,
)
    requires
        first.to_set() == tables.book_rows(id).to_set(),
        second.to_set() == tables.book_rows(id).to_set(),
    ensures
        book_of_rows(first) is Some <==> book_of_rows(second) is Some,
        book_of_rows(first) is Some ==> {
            &&& book_of_rows(first)->0.id == book_of_rows(second)->0.id
            &&& book_of_rows(first)->0.name == book_of_rows(second)->0.name
            &&& book_of_rows(first)->0.pages_count == book_of_rows(second)->0.pages_count
            &&& book_of_rows(first)->0.authors.to_set() == book_of_rows(second)->0.authors.to_set()
        },
        first == second ==> book_of_rows(first) == book_of_rows(second),
{
    let canonical = tables.book_rows(id);
    if canonical.len() == 0 {
        if first.len() > 0 {
            assert(first.to_set().contains(first[0]));
        }
        if second.len() > 0 {
            assert(second.to_set().contains(second[0]));
        }
    } else {
        let book = book_of_rows(canonical)->0;
        assert(canonical == rows_of(book));
        lemma_book_of_rows_in_any_order(book, first);
        lemma_book_of_rows_in_any_order(book, second);
    }
}

/// An author who was added to the catalog under an identity that was never
/// used is there to be read: once the unit of work of the use case is
/// committed, the row found for the identity holds the author.
pub proof fn lemma_created_author_loads(tables: Tables, author: AuthorView)
    requires
        !tables.author.dom().contains(author.id),
        payload_of(author.created()) is Some,
    ensures
        ({
            let after = tables.committed(author_creation(author, DbUoWView::fresh()).pending);
            &&& after.author_row(author.id) is Some
            &&& after.author_row(author.id)->0.author() == author
            &&& after.stored_event == tables.stored_event.push(stored(author.created()))
        }),
{
    let event = StatementView::InsertStoredEvent {
        name: author.created().name(),
        payload: payload_of(author.created())->0,
    };
    assert(author_creation(author, DbUoWView::fresh()).pending.drop_last() == seq![event]);
    lemma_apply_all_one(tables, event);
}

/// An author whose change was written is read as they were changed, once the
/// write of the repository is committed to tables that hold the author.
pub proof fn lemma_updated_author_loads(tables: Tables, author: AuthorView)
    requires
        tables.author.dom().contains(author.id),
    ensures
        ({
            let after = tables.committed(DbUoWView::fresh().queued(author.rewrite()).pending);
            &&& after.author_row(author.id) is Some
            &&& after.author_row(author.id)->0.author() == author
        }),
{
    lemma_apply_all_one(tables, author.rewrite());
}

/// The unit of work once all of `events` are appended, one after the other.
pub open spec fn events_appended(events: Seq<DomainEventView>, before: DbUoWView) -> DbUoWView
    decreases events.len(),
{
    if events.len() == 0 {
        before
    } else {
        event_appended(events.last(), events_appended(events.drop_last(), before))
    }
}

/// The row of `stored_event` that an event with a payload becomes.
pub open spec fn stored(e: DomainEventView) -> StoredEventView {
    StoredEventView { name: e.name(), payload: payload_of(e)->0 }
}

/// Events that were appended in one unit of work wait there, one insert for
/// each and in their order.
pub proof fn lemma_events_appended(events: Seq<DomainEventView>)
    requires
        forall|i: int| 0 <= i < events.len() ==> payload_of(#[trigger] events[i]) is Some,
    ensures
        !events_appended(events, DbUoWView::fresh()).aborted,
        events_appended(events, DbUoWView::fresh()).pending == events.map_values(
            |e: DomainEventView|
                StatementView::InsertStoredEvent { name: e.name(), payload: payload_of(e)->0 },
        ),
    decreases events.len(),
{
    if events.len() > 0 {
        lemma_events_appended(events.drop_last());
    }
}

/// Inserts into `stored_event` are never refused: each adds its row at the
/// end and leaves the other tables alone.
proof fn lemma_apply_event_inserts(tables: Tables, events: Seq<DomainEventView>)
    ensures
        tables.apply_all(
            events.map_values(
                |e: DomainEventView|
                    StatementView::InsertStoredEvent { name: e.name(), payload: payload_of(e)->0 },
            ),
        ) == Some(
            Tables {
                stored_event: tables.stored_event + events.map_values(|e: DomainEventView| stored(e)),
                ..tables
            },
        ),
    decreases events.len(),
{
    let insert = |e: DomainEventView|
        StatementView::InsertStoredEvent { name: e.name(), payload: payload_of(e)->0 };
    let row = |e: DomainEventView| stored(e);
    if events.len() > 0 {
        lemma_apply_event_inserts(tables, events.drop_last());
        assert(events.map_values(insert).drop_last() == events.drop_last().map_values(insert));
        assert(tables.stored_event + events.map_values(row) == (tables.stored_event
            + events.drop_last().map_values(row)).push(stored(events.last())));
    }
}

/// Events that were appended in one unit of work become rows of
/// `stored_event` with its commit: one row for each event, in their order, and
/// no other table changes. Before the commit nothing of them is written, for
/// the tables change with a committed batch alone.
pub proof fn lemma_appended_events_become_rows(tables: Tables, events: Seq<DomainEventView>)
    requires
        forall|i: int| 0 <= i < events.len() ==> payload_of(#[trigger] events[i]) is Some,
    ensures
        ({
            let after = tables.committed(events_appended(events, DbUoWView::fresh()).pending);
            &&& after.stored_event == tables.stored_event + events.map_values(
                |e: DomainEventView| stored(e),
            )
            &&& after.stored_event.len() == tables.stored_event.len() + events.len()
            &&& after.book == tables.book
            &&& after.author_book == tables.author_book
            &&& after.author == tables.author
        }),
        tables.committed(Seq::empty()) == tables,
{
    lemma_events_appended(events);
    lemma_apply_event_inserts(tables, events);
}

/// An event without a payload gives the unit of work up: whatever was pending
/// is dropped, and whatever is appended or queued after it is dropped too.
pub proof fn lemma_unwritable_event_aborts(
    e: DomainEventView,
    before: DbUoWView,
    later: Seq<StatementView>,
)
    requires
        payload_of(e) is None,
    ensures
        event_appended(e, before).queued_all(later) == DbUoWView::fresh().discarded(),
{
}

} // verus!
