//! The book aggregate and the events it publishes.

use super::{delivered, DomainEvent, DomainEventHandler, DomainEventPublisher, DomainEventView};
use vstd::prelude::*;

verus! {

/// A book of the catalog: a name, a number of pages and the identities of its
/// authors, under an identity that the backing store assigned.
#[derive(Debug)]
pub struct Book {
    id: i32,
    name: String,
    pages_count: i32,
    authors: Vec<i32>,
}

/// A book as a mathematical value.
pub struct BookView {
    pub id: i32,
    pub name: Seq<char>,
    pub pages_count: i32,
    pub authors: Seq<i32>,
}

impl BookView {
    /// The invariant of a book: it has a name, at least one page and at least
    /// one author.
    pub open spec fn valid(self) -> bool {
        &&& self.name.len() > 0
        &&& self.pages_count > 0
        &&& self.authors.len() > 0
    }

    /// The event that tells of the creation of this book.
    pub open spec fn created(self) -> DomainEventView {
        DomainEventView::BookCreated(
            BookCreatedView {
                id: self.id,
                name: self.name,
                pages_count: self.pages_count,
                authors: self.authors,
            },
        )
    }

    /// The event that tells that this book now bears its present name.
    pub open spec fn renamed(self) -> DomainEventView {
        DomainEventView::BookRenamed(BookRenamedView { id: self.id, name: self.name })
    }
}

impl View for Book {
    type V = BookView;

    closed spec fn view(&self) -> BookView {
        BookView {
            id: self.id,
            name: self.name@,
            pages_count: self.pages_count,
            authors: self.authors@,
        }
    }
}

impl Book {
    /// Rebuilds a book from persisted state. Nothing is checked and nothing is
    /// published: the book is valid exactly if the state is.
    pub fn materialize(id: i32, name: &str, pages_count: i32, authors: Vec<i32>) -> (book: Self)
        ensures
            book@ == (BookView { id, name: name@, pages_count, authors: authors@ }),
    {
        Self { id, name: name.to_owned(), pages_count, authors }
    }

    /// Creates a book and publishes its creation, once, to every subscriber of
    /// `publisher`.
    pub fn new<C: View, H: DomainEventHandler<C>>(
        id: i32,
        name: &str,
        pages_count: i32,
        authors: Vec<i32>,
        publisher: &mut DomainEventPublisher<H>,
        ctx: &mut C,
    ) -> (book: Self)
        requires
            name@.len() > 0,
            pages_count > 0,
            authors@.len() > 0,
        ensures
            book@ == (BookView { id, name: name@, pages_count, authors: authors@ }),
            book@.valid(),
            final(ctx)@ == delivered(old(publisher)@, book@.created(), old(ctx)@),
            final(publisher)@ == old(publisher)@,
            final(publisher).sealed(),
    {
        let book = Self { id, name: name.to_owned(), pages_count, authors: copy_ids(&authors) };
        let event = DomainEvent::BookCreated(
            BookCreated { id, name: name.to_owned(), pages_count, authors },
        );
        publisher.publish(&event, ctx);
        book
    }

    /// Replaces the name, the number of pages and the authors. A name that
    /// differs from the present one is published as a renaming, once; the other
    /// two are replaced in silence.
    pub fn update<C: View, H: DomainEventHandler<C>>(
        &mut self,
        name: &str,
        pages_count: i32,
        authors: Vec<i32>,
        publisher: &mut DomainEventPublisher<H>,
        ctx: &mut C,
    )
        requires
            name@.len() > 0,
            pages_count > 0,
            authors@.len() > 0,
        ensures
            final(self)@ == (BookView {
                id: old(self)@.id,
                name: name@,
                pages_count,
                authors: authors@,
            }),
            final(self)@.valid(),
            final(publisher)@ == old(publisher)@,
            old(self)@.name == name@ ==> {
                &&& final(ctx)@ == old(ctx)@
                &&& final(publisher).sealed() == old(publisher).sealed()
            },
            old(self)@.name != name@ ==> {
                &&& final(ctx)@ == delivered(old(publisher)@, final(self)@.renamed(), old(ctx)@)
                &&& final(publisher).sealed()
            },
    {
        let new_name = name.to_owned();
        if !(self.name == new_name) {
            self.name = new_name;
            let event = DomainEvent::BookRenamed(BookRenamed { id: self.id, name: name.to_owned() });
            publisher.publish(&event, ctx);
        }
        self.pages_count = pages_count;
        self.authors = authors;
    }

    pub fn id(&self) -> (id: i32)
        ensures
            id == self@.id,
    {
        self.id
    }

    pub fn name(&self) -> (name: &str)
        ensures
            name@ == self@.name,
    {
        self.name.as_str()
    }

    pub fn pages_count(&self) -> (pages_count: i32)
        ensures
            pages_count == self@.pages_count,
    {
        self.pages_count
    }

    pub fn authors(&self) -> (authors: &[i32])
        ensures
            authors@ == self@.authors,
    {
        self.authors.as_slice()
    }
}

/// A copy of a list of identities.
pub fn copy_ids(ids: &Vec<i32>) -> (copy: Vec<i32>)
    ensures
        copy@ == ids@,
{
    let mut copy: Vec<i32> = Vec::new();
    let mut i: usize = 0;
    while i < ids.len()
        invariant
            i <= ids@.len(),
            copy@ == ids@.take(i as int),
        decreases ids@.len() - i,
    {
        copy.push(ids[i]);
        i += 1;
    }
    copy
}

/// Where books are kept. A repository writes nothing itself: it queues its
/// writes in the unit of work that it is handed.
pub trait BookRepository<U: View> {
    /// The unit of work once the rows of a new book are queued.
    spec fn created(&self, book: BookView, before: U::V) -> U::V;

    /// The unit of work once the changed rows of a book are queued.
    spec fn updated(&self, book: BookView, before: U::V) -> U::V;

    fn create(&self, book: &Book, uow: &mut U)
        ensures
            final(uow)@ == self.created(book@, old(uow)@),
    ;

    fn update(&self, book: &Book, uow: &mut U)
        ensures
            final(uow)@ == self.updated(book@, old(uow)@),
    ;
}

/// A book came into being.
#[derive(Debug, Clone, PartialEq, Eq)]
pub struct BookCreated {
    pub id: i32,
    pub name: String,
    pub pages_count: i32,
    pub authors: Vec<i32>,
}

/// A `BookCreated` event as a mathematical value.
pub struct BookCreatedView {
    pub id: i32,
    pub name: Seq<char>,
    pub pages_count: i32,
    pub authors: Seq<i32>,
}

impl View for BookCreated {
    type V = BookCreatedView;

    open spec fn view(&self) -> BookCreatedView {
        BookCreatedView {
            id: self.id,
            name: self.name@,
            pages_count: self.pages_count,
            authors: self.authors@,
        }
    }
}

/// A book was given another name.
#[derive(Debug, Clone, PartialEq, Eq)]
pub struct BookRenamed {
    pub id: i32,
    pub name: String,
}

/// A `BookRenamed` event as a mathematical value.
pub struct BookRenamedView {
    pub id: i32,
    pub name: Seq<char>,
}

impl View for BookRenamed {
    type V = BookRenamedView;

    open spec fn view(&self) -> BookRenamedView {
        BookRenamedView { id: self.id, name: self.name@ }
    }
}

} // verus!
