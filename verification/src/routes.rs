//! What the HTTP front end answers, decided from what the store gave back.
//!
//! The front end does the waiting: it asks the store and hands the outcome
//! to one of these functions, which picks the status and the body.

use crate::person::{Person, PersonInput};
use vstd::prelude::*;
use vstd::string::*;

verus! {

/// The statuses that the service answers with.
#[derive(Debug, Clone, Copy, PartialEq, Eq, Structural)]
pub enum Status {
    Success,
    Created,
    NotFound,
    UnprocessableEntity,
    InternalServerError,
}

/// The status given to a search that ran and matched nobody.
pub const EMPTY_SEARCH: Status = Status::NotFound;

impl Status {
    /// The number of this status on the wire.
    pub open spec fn spec_code(self) -> int {
        match self {
            Status::Success => 200,
            Status::Created => 201,
            Status::NotFound => 404,
            Status::UnprocessableEntity => 422,
            Status::InternalServerError => 500,
        }
    }

    /// The number of this status on the wire.
    pub fn code(self) -> (number: u16)
        ensures
            number == self.spec_code(),
    {
        match self {
            Status::Success => 200,
            Status::Created => 201,
            Status::NotFound => 404,
            Status::UnprocessableEntity => 422,
            Status::InternalServerError => 500,
        }
    }
}

/// The term of a search request. A request without the parameter `t` is
/// turned away as unprocessable; any other is to be run with its term.
pub fn search_term(t: Option<String>) -> (term: Result<String, Status>)
    ensures
        term == match t {
            Some(given) => Ok::<String, Status>(given),
            None => Err(Status::UnprocessableEntity),
        },
{
    match t {
        Some(given) => Ok(given),
        None => Err(Status::UnprocessableEntity),
    }
}

/// The answer owed to a search by term, given what the store gave back.
pub open spec fn search_reply<E>(found: Result<Vec<Person>, E>) -> Result<
    (Status, Vec<Person>),
    Status,
> {
    match found {
        Ok(people) => if people@.len() == 0 {
            Err(EMPTY_SEARCH)
        } else {
            Ok((Status::Success, people))
        },
        Err(_) => Err(Status::InternalServerError),
    }
}

/// The answer to a search by term. People that were found go out with the
/// status for success, in the order the store gave them. A search that
/// matched nobody is answered with `EMPTY_SEARCH`, and only a store
/// that failed with an internal error.
pub fn search_people_by_term<E>(found: Result<Vec<Person>, E>) -> (reply: Result<
    (Status, Vec<Person>),
    Status,
>)
    ensures
        reply == search_reply(found),
{
    match found {
        Ok(people) => {
            if people.len() == 0 {
                Err(EMPTY_SEARCH)
            } else {
                Ok((Status::Success, people))
            }
        },
        Err(_) => Err(Status::InternalServerError),
    }
}

/// The answer to a lookup by identifier: the person with the status for success, or
/// unprocessable when the store gave none.
pub fn search_person_by_id<E>(found: Result<Person, E>) -> (reply: Result<(Status, Person), Status>)
    ensures
        reply == match found {
            Ok(person) => Ok::<(Status, Person), Status>((Status::Success, person)),
            Err(_) => Err(Status::UnprocessableEntity),
        },
{
    match found {
        Ok(person) => Ok((Status::Success, person)),
        Err(_) => Err(Status::UnprocessableEntity),
    }
}

/// The person that a creation request asks to store. A body that could not
/// be decoded, or whose fields break a length rule, is turned away as
/// unprocessable; any other gives the person to hand to the store.
pub fn person_to_create(decoded: Result<PersonInput, serde_json::Error>) -> (wanted: Result<
    Person,
    Status,
>)
    ensures
        match decoded {
            Err(_) => wanted == Err::<Person, Status>(Status::UnprocessableEntity),
            Ok(input) => match input.violation() {
                None => wanted matches Ok(person) && input.kept_by(person),
                Some(_) => wanted == Err::<Person, Status>(Status::UnprocessableEntity),
            },
        },
{
    match Person::from_decoded(decoded) {
        Ok(person) => Ok(person),
        Err(_) => Err(Status::UnprocessableEntity),
    }
}

/// The answer to a creation: the stored person with the status created, or
/// unprocessable when the store refused it.
pub fn create_person<E>(stored: Result<Person, E>) -> (reply: Result<(Status, Person), Status>)
    ensures
        reply == match stored {
            Ok(person) => Ok::<(Status, Person), Status>((Status::Created, person)),
            Err(_) => Err(Status::UnprocessableEntity),
        },
{
    match stored {
        Ok(person) => Ok((Status::Created, person)),
        Err(_) => Err(Status::UnprocessableEntity),
    }
}

/// The character that writes one decimal digit.
pub open spec fn digit(d: int) -> char {
    if d == 0 {
        '0'
    } else if d == 1 {
        '1'
    } else if d == 2 {
        '2'
    } else if d == 3 {
        '3'
    } else if d == 4 {
        '4'
    } else if d == 5 {
        '5'
    } else if d == 6 {
        '6'
    } else if d == 7 {
        '7'
    } else if d == 8 {
        '8'
    } else {
        '9'
    }
}

/// A natural number written in decimal, without leading zeros.
pub open spec fn decimal_digits(n: nat) -> Seq<char>
    decreases n,
{
    if n < 10 {
        seq![digit(n as int)]
    } else {
        decimal_digits(n / 10).push(digit((n % 10) as int))
    }
}

/// An integer written in decimal, with a minus sign before a negative one.
pub open spec fn decimal_text(n: int) -> Seq<char> {
    if n < 0 {
        seq!['-'] + decimal_digits((-n) as nat)
    } else {
        decimal_digits(n as nat)
    }
}

/// The text of one decimal digit.
fn digit_text(d: u64) -> (text: &'static str)
    requires
        d < 10,
    ensures
        text@ == seq![digit(d as int)],
{
    proof {
        reveal_strlit("0");
        reveal_strlit("1");
        reveal_strlit("2");
        reveal_strlit("3");
        reveal_strlit("4");
        reveal_strlit("5");
        reveal_strlit("6");
        reveal_strlit("7");
        reveal_strlit("8");
        reveal_strlit("9");
    }
    let text = if d == 0 {
        "0"
    } else if d == 1 {
        "1"
    } else if d == 2 {
        "2"
    } else if d == 3 {
        "3"
    } else if d == 4 {
        "4"
    } else if d == 5 {
        "5"
    } else if d == 6 {
        "6"
    } else if d == 7 {
        "7"
    } else if d == 8 {
        "8"
    } else {
        "9"
    };
    text
}

/// Writes `n` in decimal at the end of `out`.
fn write_digits(out: &mut String, n: u64)
    ensures
        final(out)@ == old(out)@ + decimal_digits(n as nat),
    decreases n,
{
    if n >= 10 {
        write_digits(out, n / 10);
    }
    out.append(digit_text(n % 10));
}

/// A count written as the text of a reply body.
pub fn count_text(count: i64) -> (text: String)
    ensures
        text@ == decimal_text(count as int),
{
    let mut text = String::new();
    if count < 0 {
        proof {
            reveal_strlit("-");
        }
        text.append("-");
        let magnitude: u64 = (0 - count as i128) as u64;
        write_digits(&mut text, magnitude);
    } else {
        write_digits(&mut text, count as u64);
    }
    text
}

/// The answer to a count: the number as text with the status for success,
/// or an internal error when the store failed.
pub fn amount_of_people<E>(counted: Result<i64, E>) -> (reply: Result<(Status, String), Status>)
    ensures
        match counted {
            Ok(count) => reply matches Ok((status, body)) && status == Status::Success && body@
                == decimal_text(count as int),
            Err(_) => reply == Err::<(Status, String), Status>(Status::InternalServerError),
        },
{
    match counted {
        Ok(count) => Ok((Status::Success, count_text(count))),
        Err(_) => Err(Status::InternalServerError),
    }
}

/// A search that the store ran without failure is never answered with an
/// internal error: it is answered with the people found, or, when there are
/// none, always with not found.
pub proof fn search_that_ran_is_no_store_failure<E>(found: Result<Vec<Person>, E>)
    requires
        found is Ok,
    ensures
        search_reply(found) != Err::<(Status, Vec<Person>), Status>(Status::InternalServerError),
        found->Ok_0@.len() == 0 ==> search_reply(found) == Err::<(Status, Vec<Person>), Status>(
            Status::NotFound,
        ),
        found->Ok_0@.len() > 0 ==> search_reply(found) == Ok::<(Status, Vec<Person>), Status>(
            (Status::Success, found->Ok_0),
        ),
{
}

} // verus!
