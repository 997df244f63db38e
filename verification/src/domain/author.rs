//! The author aggregate and the events it publishes.

use super::{delivered, DomainEvent, DomainEventHandler, DomainEventPublisher, DomainEventView};
use vstd::prelude::*;
use vstd::string::StringExecFns;

verus! {

/// An author of the catalog: a first and a last name, and the full name that
/// is made of the two, under an identity that the backing store assigned.
#[derive(Debug)]
pub struct Author {
    id: i32,
    first_name: String,
    last_name: String,
    full_name: String,
}

/// An author as a mathematical value.
pub struct AuthorView {
    pub id: i32,
    pub first_name: Seq<char>,
    pub last_name: Seq<char>,
    pub full_name: Seq<char>,
}

/// The full name: the first name, one space, the last name.
pub open spec fn full_name_of(first_name: Seq<char>, last_name: Seq<char>) -> Seq<char> {
    first_name + " "@ + last_name
}

impl AuthorView {
    /// The invariant of an author: both names are there, and the full name is
    /// the one that they make.
    pub open spec fn valid(self) -> bool {
        &&& self.first_name.len() > 0
        &&& self.last_name.len() > 0
        &&& self.full_name == full_name_of(self.first_name, self.last_name)
    }

    /// The event that tells of the creation of this author.
    pub open spec fn created(self) -> DomainEventView {
        DomainEventView::AuthorCreated(
            AuthorCreatedView {
                id: self.id,
                first_name: self.first_name,
                last_name: self.last_name,
                full_name: self.full_name,
            },
        )
    }

    /// The event that tells that this author now bears their present names.
    pub open spec fn renamed(self) -> DomainEventView {
        DomainEventView::AuthorRenamed(
            AuthorRenamedView {
                id: self.id,
                first_name: self.first_name,
                last_name: self.last_name,
                full_name: self.full_name,
            },
        )
    }

    /// This author under other names.
    pub open spec fn named(self, first_name: Seq<char>, last_name: Seq<char>) -> AuthorView {
        AuthorView {
            id: self.id,
            first_name,
            last_name,
            full_name: full_name_of(first_name, last_name),
        }
    }
}

impl View for Author {
    type V = AuthorView;

    closed spec fn view(&self) -> AuthorView {
        AuthorView {
            id: self.id,
            first_name: self.first_name@,
            last_name: self.last_name@,
            full_name: self.full_name@,
        }
    }
}

impl Author {
    /// Rebuilds an author from persisted state. Nothing is checked and nothing
    /// is published: the author is valid exactly if the state is.
    pub fn materialize(id: i32, first_name: &str, last_name: &str, full_name: &str) -> (author: Self)
        ensures
            author@ == (AuthorView {
                id,
                first_name: first_name@,
                last_name: last_name@,
                full_name: full_name@,
            }),
    {
        Self {
            id,
            first_name: first_name.to_owned(),
            last_name: last_name.to_owned(),
            full_name: full_name.to_owned(),
        }
    }

    /// Creates an author and publishes their creation, once, to every
    /// subscriber of `publisher`.
    pub fn new<C: View, H: DomainEventHandler<C>>(
        id: i32,
        first_name: &str,
        last_name: &str,
        publisher: &mut DomainEventPublisher<H>,
        ctx: &mut C,
    ) -> (author: Self)
        requires
            first_name@.len() > 0,
            last_name@.len() > 0,
        ensures
            author@ == (AuthorView {
                id,
                first_name: first_name@,
                last_name: last_name@,
                full_name: full_name_of(first_name@, last_name@),
            }),
            author@.valid(),
            final(ctx)@ == delivered(old(publisher)@, author@.created(), old(ctx)@),
            final(publisher)@ == old(publisher)@,
            final(publisher).sealed(),
    {
        let author = Self {
            id,
            first_name: first_name.to_owned(),
            last_name: last_name.to_owned(),
            full_name: Author::calculate_full_name(first_name, last_name),
        };
        let event = DomainEvent::AuthorCreated(
            AuthorCreated {
                id,
                first_name: first_name.to_owned(),
                last_name: last_name.to_owned(),
                full_name: author.full_name.clone(),
            },
        );
        publisher.publish(&event, ctx);
        author
    }

    pub fn id(&self) -> (id: i32)
        ensures
            id == self@.id,
    {
        self.id
    }

    pub fn first_name(&self) -> (first_name: &str)
        ensures
            first_name@ == self@.first_name,
    {
        self.first_name.as_str()
    }

    pub fn last_name(&self) -> (last_name: &str)
        ensures
            last_name@ == self@.last_name,
    {
        self.last_name.as_str()
    }

    pub fn full_name(&self) -> (full_name: &str)
        ensures
            full_name@ == self@.full_name,
    {
        self.full_name.as_str()
    }

    /// Gives the author other names. Where one of the two differs from the
    /// present one, both are replaced, the full name is made anew and the
    /// renaming is published, once; where neither differs, nothing happens.
    pub fn update<C: View, H: DomainEventHandler<C>>(
        &mut self,
        first_name: &str,
        last_name: &str,
        publisher: &mut DomainEventPublisher<H>,
        ctx: &mut C,
    )
        requires
            first_name@.len() > 0,
            last_name@.len() > 0,
        ensures
            final(publisher)@ == old(publisher)@,
            old(self)@.first_name == first_name@ && old(self)@.last_name == last_name@ ==> {
                &&& final(self)@ == old(self)@
                &&& final(ctx)@ == old(ctx)@
                &&& final(publisher).sealed() == old(publisher).sealed()
            },
            old(self)@.first_name != first_name@ || old(self)@.last_name != last_name@ ==> {
                &&& final(self)@ == old(self)@.named(first_name@, last_name@)
                &&& final(ctx)@ == delivered(old(publisher)@, final(self)@.renamed(), old(ctx)@)
                &&& final(publisher).sealed()
            },
            old(self)@.valid() ==> final(self)@.valid(),
    {
        let new_first = first_name.to_owned();
        let new_last = last_name.to_owned();
        if !(self.first_name == new_first) || !(self.last_name == new_last) {
            self.first_name = new_first;
            self.last_name = new_last;
            self.full_name = Author::calculate_full_name(first_name, last_name);
            let event = DomainEvent::AuthorRenamed(
                AuthorRenamed {
                    id: self.id,
                    first_name: first_name.to_owned(),
                    last_name: last_name.to_owned(),
                    full_name: self.full_name.clone(),
                },
            );
            publisher.publish(&event, ctx);
        }
    }

    pub fn calculate_full_name(first_name: &str, last_name: &str) -> (full_name: String)
        ensures
            full_name@ == full_name_of(first_name@, last_name@),
    {
        let mut full_name = first_name.to_owned();
        full_name.append(" ");
        full_name.append(last_name);
        full_name
    }
}

/// Where authors are kept. A repository writes nothing itself: it queues its
/// writes in the unit of work that it is handed.
pub trait AuthorRepository<U: View> {
    /// The unit of work once the row of a new author is queued.
    spec fn created(&self, author: AuthorView, before: U::V) -> U::V;

    /// The unit of work once the changed row of an author is queued.
    spec fn updated(&self, author: AuthorView, before: U::V) -> U::V;

    fn create(&self, author: &Author, uow: &mut U)
        ensures
            final(uow)@ == self.created(author@, old(uow)@),
    ;

    fn update(&self, author: &Author, uow: &mut U)
        ensures
            final(uow)@ == self.updated(author@, old(uow)@),
    ;
}

/// An author came into being.
#[derive(Debug, Clone, PartialEq, Eq)]
pub struct AuthorCreated {
    pub id: i32,
    pub first_name: String,
    pub last_name: String,
    pub full_name: String,
}

/// An `AuthorCreated` event as a mathematical value.
pub struct AuthorCreatedView {
    pub id: i32,
    pub first_name: Seq<char>,
    pub last_name: Seq<char>,
    pub full_name: Seq<char>,
}

impl View for AuthorCreated {
    type V = AuthorCreatedView;

    open spec fn view(&self) -> AuthorCreatedView {
        AuthorCreatedView {
            id: self.id,
            first_name: self.first_name@,
            last_name: self.last_name@,
            full_name: self.full_name@,
        }
    }
}

/// An author was given another name.
#[derive(Debug, Clone, PartialEq, Eq)]
pub struct AuthorRenamed {
    pub id: i32,
    pub first_name: String,
    pub last_name: String,
    pub full_name: String,
}

/// An `AuthorRenamed` event as a mathematical value.
pub struct AuthorRenamedView {
    pub id: i32,
    pub first_name: Seq<char>,
    pub last_name: Seq<char>,
    pub full_name: Seq<char>,
}

impl View for AuthorRenamed {
    type V = AuthorRenamedView;

    open spec fn view(&self) -> AuthorRenamedView {
        AuthorRenamedView {
            id: self.id,
            first_name: self.first_name@,
            last_name: self.last_name@,
            full_name: self.full_name@,
        }
    }
}

} // verus!
