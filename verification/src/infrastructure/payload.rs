//! The text of a stored event: a JSON object that mirrors the event.

use crate::domain::author::{AuthorCreated, AuthorRenamed};
use crate::domain::book::{BookCreated, BookRenamed};
use crate::domain::{DomainEvent, DomainEventView};
use vstd::prelude::*;
use vstd::string::StringExecFns;

verus! {

/// The character of a decimal digit.
pub open spec fn digit(d: int) -> char {
    if d == 0 {
        '0'
    } else if d == 1 {
        '1'
    } else if d == 2 {
        '2'
    } else if d == 3 {
        '3'
    } else if d == 4 {
        '4'
    } else if d == 5 {
        '5'
    } else if d == 6 {
        '6'
    } else if d == 7 {
        '7'
    } else if d == 8 {
        '8'
    } else {
        '9'
    }
}

/// The decimal digits of a natural number, without leading zeros.
pub open spec fn digits(n: nat) -> Seq<char>
    decreases n,
{
    if n < 10 {
        seq![digit(n as int)]
    } else {
        digits(n / 10).push(digit((n % 10) as int))
    }
}

/// An integer in decimal notation, with a minus sign where it is negative.
pub open spec fn decimal(i: int) -> Seq<char> {
    if i < 0 {
        seq!['-'] + digits((-i) as nat)
    } else {
        digits(i as nat)
    }
}

fn digit_text(d: u64) -> (text: &'static str)
    requires
        d < 10,
    ensures
        text@ == seq![digit(d as int)],
{
    proof {
        reveal_strlit("0");
        reveal_strlit("1");
        reveal_strlit("2");
        reveal_strlit("3");
        reveal_strlit("4");
        reveal_strlit("5");
        reveal_strlit("6");
        reveal_strlit("7");
        reveal_strlit("8");
        reveal_strlit("9");
    }
    let text = if d == 0 {
        "0"
    } else if d == 1 {
        "1"
    } else if d == 2 {
        "2"
    } else if d == 3 {
        "3"
    } else if d == 4 {
        "4"
    } else if d == 5 {
        "5"
    } else if d == 6 {
        "6"
    } else if d == 7 {
        "7"
    } else if d == 8 {
        "8"
    } else {
        "9"
    };
    text
}

fn push_digits(out: &mut String, n: u64)
    ensures
        final(out)@ == old(out)@ + digits(n as nat),
    decreases n,
{
    if n >= 10 {
        push_digits(out, n / 10);
    }
    out.append(digit_text(n % 10));
}

/// Writes `i` at the end of `out`, in decimal notation.
pub fn push_decimal(out: &mut String, i: i32)
    ensures
        final(out)@ == old(out)@ + decimal(i as int),
{
    let wide: i64 = i as i64;
    if wide < 0 {
        proof {
            reveal_strlit("-");
        }
        out.append("-");
        push_digits(out, (-wide) as u64);
    } else {
        push_digits(out, wide as u64);
    }
}

/// The items of a JSON array of integers, with commas between them.
pub open spec fn id_items(ids: Seq<i32>) -> Seq<char>
    decreases ids.len(),
{
    if ids.len() == 0 {
        Seq::empty()
    } else if ids.len() == 1 {
        decimal(ids[0] as int)
    } else {
        id_items(ids.drop_last()) + ","@ + decimal(ids.last() as int)
    }
}

/// A JSON array of integers.
pub open spec fn id_list(ids: Seq<i32>) -> Seq<char> {
    "["@ + id_items(ids) + "]"@
}

/// Writes `ids` at the end of `out`, as a JSON array.
pub fn push_id_list(out: &mut String, ids: &Vec<i32>)
    ensures
        final(out)@ == old(out)@ + id_list(ids@),
{
    out.append("[");
    let ghost start = out@;
    let mut i: usize = 0;
    while i < ids.len()
        invariant
            i <= ids@.len(),
            out@ == start + id_items(ids@.take(i as int)),
        decreases ids@.len() - i,
    {
        if i > 0 {
            out.append(",");
        }
        push_decimal(out, ids[i]);
        proof {
            assert(ids@.take(i + 1).drop_last() == ids@.take(i as int));
        }
        i += 1;
    }
    proof {
        assert(ids@.take(ids@.len() as int) == ids@);
    }
    out.append("]");
}

/// The payload of a `BookCreated` event, where `name` is the JSON text of the
/// book's name.
pub open spec fn book_created_text(
    id: int,
    name: Seq<char>,
    pages_count: int,
    authors: Seq<i32>,
) -> Seq<char> {
    "{\"BookCreated\":{\"id\":"@ + decimal(id) + ",\"name\":"@ + name + ",\"pages_count\":"@
        + decimal(pages_count) + ",\"authors\":"@ + id_list(authors) + "}}"@
}

/// The payload of a `BookRenamed` event, where `name` is the JSON text of the
/// book's new name.
pub open spec fn book_renamed_text(id: int, name: Seq<char>) -> Seq<char> {
    "{\"BookRenamed\":{\"id\":"@ + decimal(id) + ",\"name\":"@ + name + "}}"@
}

/// The fields that the payloads of the two author events share, where the
/// three names are JSON texts.
pub open spec fn author_fields_text(
    id: int,
    first_name: Seq<char>,
    last_name: Seq<char>,
    full_name: Seq<char>,
) -> Seq<char> {
    "{\"id\":"@ + decimal(id) + ",\"first_name\":"@ + first_name + ",\"last_name\":"@ + last_name
        + ",\"full_name\":"@ + full_name + "}"@
}

/// The payload of an `AuthorCreated` event, where the three names are JSON
/// texts.
pub open spec fn author_created_text(
    id: int,
    first_name: Seq<char>,
    last_name: Seq<char>,
    full_name: Seq<char>,
) -> Seq<char> {
    "{\"AuthorCreated\":"@ + author_fields_text(id, first_name, last_name, full_name) + "}"@
}

/// The payload of an `AuthorRenamed` event, where the three names are JSON
/// texts.
pub open spec fn author_renamed_text(
    id: int,
    first_name: Seq<char>,
    last_name: Seq<char>,
    full_name: Seq<char>,
) -> Seq<char> {
    "{\"AuthorRenamed\":"@ + author_fields_text(id, first_name, last_name, full_name) + "}"@
}

/// Frames the payload of a `BookCreated` event round the JSON text of the name.
pub fn book_created_payload(id: i32, name: &str, pages_count: i32, authors: &Vec<i32>) -> (payload:
    String)
    ensures
        payload@ == book_created_text(id as int, name@, pages_count as int, authors@),
{
    let mut payload = "{\"BookCreated\":{\"id\":".to_owned();
    push_decimal(&mut payload, id);
    payload.append(",\"name\":");
    payload.append(name);
    payload.append(",\"pages_count\":");
    push_decimal(&mut payload, pages_count);
    payload.append(",\"authors\":");
    push_id_list(&mut payload, authors);
    payload.append("}}");
    payload
}

/// Frames the payload of a `BookRenamed` event round the JSON text of the name.
pub fn book_renamed_payload(id: i32, name: &str) -> (payload: String)
    ensures
        payload@ == book_renamed_text(id as int, name@),
{
    let mut payload = "{\"BookRenamed\":{\"id\":".to_owned();
    push_decimal(&mut payload, id);
    payload.append(",\"name\":");
    payload.append(name);
    payload.append("}}");
    payload
}

fn push_author_fields(out: &mut String, id: i32, first_name: &str, last_name: &str, full_name: &str)
    ensures
        final(out)@ == old(out)@ + author_fields_text(
            id as int,
            first_name@,
            last_name@,
            full_name@,
        ),
{
    out.append("{\"id\":");
    push_decimal(out, id);
    out.append(",\"first_name\":");
    out.append(first_name);
    out.append(",\"last_name\":");
    out.append(last_name);
    out.append(",\"full_name\":");
    out.append(full_name);
    out.append("}");
}

/// Frames the payload of an `AuthorCreated` event round the JSON texts of the
/// three names.
pub fn author_created_payload(id: i32, first_name: &str, last_name: &str, full_name: &str) -> (payload:
    String)
    ensures
        payload@ == author_created_text(id as int, first_name@, last_name@, full_name@),
{
    let mut payload = "{\"AuthorCreated\":".to_owned();
    push_author_fields(&mut payload, id, first_name, last_name, full_name);
    payload.append("}");
    payload
}

/// Frames the payload of an `AuthorRenamed` event round the JSON texts of the
/// three names.
pub fn author_renamed_payload(id: i32, first_name: &str, last_name: &str, full_name: &str) -> (payload:
    String)
    ensures
        payload@ == author_renamed_text(id as int, first_name@, last_name@, full_name@),
{
    let mut payload = "{\"AuthorRenamed\":".to_owned();
    push_author_fields(&mut payload, id, first_name, last_name, full_name);
    payload.append("}");
    payload
}

/// The error of `serde_json`. It is carried from the call to the place where
/// it becomes a `PayloadError`; nothing is read from it.
#[verifier::external_type_specification]
#[verifier::external_body]
pub struct ExJsonError(serde_json::Error);

/// The JSON text that `serde_json` writes for a string: the string between
/// double quotes, with the characters escaped that JSON does not take as they
/// are. `None` where it reports an error instead.
pub uninterp spec fn json_string(s: Seq<char>) -> Option<Seq<char>>;

/// `serde_json::to_string`, called on a string slice. Trusted: the text that
/// comes back, or that none does, depends on the string alone. Nothing is
/// claimed of what the text looks like, nor that there is one.
#[verifier::external_body]
fn to_json_string(s: &str) -> (r: Result<String, serde_json::Error>)
    ensures
        r matches Ok(text) ==> json_string(s@) == Some(text@),
        r is Err ==> json_string(s@) is None,
{
    serde_json::to_string(s)
}

/// Why an event has no payload.
#[derive(Debug, Clone, Copy, PartialEq, Eq)]
pub enum PayloadError {
    /// One of the strings of the event could not be written as JSON.
    NotSerialized,
}

/// The JSON text of a string.
pub fn encode(s: &str) -> (r: Result<String, PayloadError>)
    ensures
        r matches Ok(text) ==> json_string(s@) == Some(text@),
        r is Err ==> json_string(s@) is None,
{
    match to_json_string(s) {
        Ok(text) => Ok(text),
        Err(_) => Err(PayloadError::NotSerialized),
    }
}

/// The payload of an event: an object with one member, named after the kind of
/// the event, which holds the fields of the event in the order of their
/// declaration. `None` where one of its strings has no JSON text.
pub open spec fn payload_of(e: DomainEventView) -> Option<Seq<char>> {
    match e {
        DomainEventView::BookCreated(b) => match json_string(b.name) {
            Some(name) => Some(
                book_created_text(b.id as int, name, b.pages_count as int, b.authors),
            ),
            None => None,
        },
        DomainEventView::BookRenamed(b) => match json_string(b.name) {
            Some(name) => Some(book_renamed_text(b.id as int, name)),
            None => None,
        },
        DomainEventView::AuthorCreated(a) => match (
            json_string(a.first_name),
            json_string(a.last_name),
            json_string(a.full_name),
        ) {
            (Some(first_name), Some(last_name), Some(full_name)) => Some(
                author_created_text(a.id as int, first_name, last_name, full_name),
            ),
            _ => None,
        },
        DomainEventView::AuthorRenamed(a) => match (
            json_string(a.first_name),
            json_string(a.last_name),
            json_string(a.full_name),
        ) {
            (Some(first_name), Some(last_name), Some(full_name)) => Some(
                author_renamed_text(a.id as int, first_name, last_name, full_name),
            ),
            _ => None,
        },
    }
}

fn book_created(e: &BookCreated) -> (r: Result<String, PayloadError>)
    ensures
        r matches Ok(p) ==> payload_of(DomainEventView::BookCreated(e@)) == Some(p@),
        r is Err ==> payload_of(DomainEventView::BookCreated(e@)) is None,
{
    match encode(e.name.as_str()) {
        Ok(name) => Ok(book_created_payload(e.id, name.as_str(), e.pages_count, &e.authors)),
        Err(error) => Err(error),
    }
}

fn book_renamed(e: &BookRenamed) -> (r: Result<String, PayloadError>)
    ensures
        r matches Ok(p) ==> payload_of(DomainEventView::BookRenamed(e@)) == Some(p@),
        r is Err ==> payload_of(DomainEventView::BookRenamed(e@)) is None,
{
    match encode(e.name.as_str()) {
        Ok(name) => Ok(book_renamed_payload(e.id, name.as_str())),
        Err(error) => Err(error),
    }
}

fn author_created(e: &AuthorCreated) -> (r: Result<String, PayloadError>)
    ensures
        r matches Ok(p) ==> payload_of(DomainEventView::AuthorCreated(e@)) == Some(p@),
        r is Err ==> payload_of(DomainEventView::AuthorCreated(e@)) is None,
{
    let first_name = match encode(e.first_name.as_str()) {
        Ok(text) => text,
        Err(error) => { return Err(error); },
    };
    let last_name = match encode(e.last_name.as_str()) {
        Ok(text) => text,
        Err(error) => { return Err(error); },
    };
    let full_name = match encode(e.full_name.as_str()) {
        Ok(text) => text,
        Err(error) => { return Err(error); },
    };
    Ok(author_created_payload(e.id, first_name.as_str(), last_name.as_str(), full_name.as_str()))
}

fn author_renamed(e: &AuthorRenamed) -> (r: Result<String, PayloadError>)
    ensures
        r matches Ok(p) ==> payload_of(DomainEventView::AuthorRenamed(e@)) == Some(p@),
        r is Err ==> payload_of(DomainEventView::AuthorRenamed(e@)) is None,
{
    let first_name = match encode(e.first_name.as_str()) {
        Ok(text) => text,
        Err(error) => { return Err(error); },
    };
    let last_name = match encode(e.last_name.as_str()) {
        Ok(text) => text,
        Err(error) => { return Err(error); },
    };
    let full_name = match encode(e.full_name.as_str()) {
        Ok(text) => text,
        Err(error) => { return Err(error); },
    };
    Ok(author_renamed_payload(e.id, first_name.as_str(), last_name.as_str(), full_name.as_str()))
}

/// Writes an event as the payload of a stored event.
pub fn payload(e: &DomainEvent) -> (r: Result<String, PayloadError>)
    ensures
        r matches Ok(p) ==> payload_of(e@) == Some(p@),
        r is Err ==> payload_of(e@) is None,
{
    match e {
        DomainEvent::BookCreated(e) => book_created(e),
        DomainEvent::BookRenamed(e) => book_renamed(e),
        DomainEvent::AuthorCreated(e) => author_created(e),
        DomainEvent::AuthorRenamed(e) => author_renamed(e),
    }
}

} // verus!
