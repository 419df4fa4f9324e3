//! The person record and the length rules that every record must pass.

use crate::bindings::fresh_id;
use time::Date;
use uuid::Uuid;
use vstd::prelude::*;
use vstd::string::*;

verus! {

/// Most characters a nick may have.
pub const MAX_NICK: usize = 32;

/// Most characters a name may have.
pub const MAX_NAME: usize = 100;

/// Most entries a stack may have.
pub const MAX_STACK: usize = 32;

/// Most characters one entry of a stack may have.
pub const MAX_TECH: usize = 32;

/// A registered person.
#[derive(Debug, PartialEq, Eq)]
pub struct Person {
    pub id: Uuid,
    pub name: String,
    pub nick: String,
    pub birth_date: Date,
    pub stack: Option<Vec<String>>,
}

/// The fields of a person as a caller hands them in, before any rule was
/// checked. The identifier is absent unless the caller supplied one.
#[derive(Debug, PartialEq, Eq)]
pub struct PersonInput {
    pub id: Option<Uuid>,
    pub name: String,
    pub nick: String,
    pub birth_date: Date,
    pub stack: Option<Vec<String>>,
}

/// What a `Person` is to the contracts: texts as sequences of characters.
pub ghost struct PersonView {
    pub id: Uuid,
    pub name: Seq<char>,
    pub nick: Seq<char>,
    pub birth_date: Date,
    pub stack: Option<Seq<Seq<char>>>,
}

/// Why a person was not accepted.
#[derive(Debug)]
pub enum PersonParserError {
    /// The text was not the JSON of a person.
    JsonError(serde_json::Error),
    /// A field is longer than its rule allows; the message names the field.
    LengthError(&'static str),
}

/// The length rules, in the order in which they are checked.
#[derive(Debug, Clone, Copy, PartialEq, Eq, Structural)]
pub enum Rule {
    NickLength,
    NameLength,
    StackCount,
    TechLength,
}

/// The entries of a list of texts, each as a sequence of characters.
pub open spec fn texts(entries: Seq<String>) -> Seq<Seq<char>> {
    Seq::new(entries.len(), |i: int| entries[i]@)
}

/// A stack as the contracts see it: absent, or the texts of its entries.
pub open spec fn stack_view(stack: Option<Vec<String>>) -> Option<Seq<Seq<char>>> {
    match stack {
        Some(entries) => Some(texts(entries@)),
        None => None,
    }
}

/// The entries of a stack; an absent stack has none.
pub open spec fn stack_entries(stack: Option<Seq<Seq<char>>>) -> Seq<Seq<char>> {
    match stack {
        Some(entries) => entries,
        None => Seq::empty(),
    }
}

/// Some entry has more than `MAX_TECH` characters.
pub open spec fn has_long_entry(entries: Seq<Seq<char>>) -> bool {
    exists|i: int| 0 <= i < entries.len() && (#[trigger] entries[i]).len() > MAX_TECH
}

/// The first rule, in checking order, that the fields break, if any.
pub open spec fn first_violation(
    name: Seq<char>,
    nick: Seq<char>,
    stack: Option<Seq<Seq<char>>>,
) -> Option<Rule> {
    if nick.len() > MAX_NICK {
        Some(Rule::NickLength)
    } else if name.len() > MAX_NAME {
        Some(Rule::NameLength)
    } else if stack_entries(stack).len() > MAX_STACK {
        Some(Rule::StackCount)
    } else if has_long_entry(stack_entries(stack)) {
        Some(Rule::TechLength)
    } else {
        None
    }
}

/// The message reported for a broken rule.
pub open spec fn rule_message(rule: Rule) -> Seq<char> {
    match rule {
        Rule::NickLength => "nick length must be smaller than 32 characters"@,
        Rule::NameLength => "name length must be smaller than 100 characters"@,
        Rule::StackCount => "stack length must be smaller than 32 characters"@,
        Rule::TechLength => "Tech length must be smaller than 32 characters"@,
    }
}

/// `err` reports that `rule` is broken, with the message of that rule.
pub open spec fn reports(err: PersonParserError, rule: Rule) -> bool {
    err matches PersonParserError::LengthError(message) && message@ == rule_message(rule)
}

impl Rule {
    /// The message reported when this rule is broken.
    pub fn message(self) -> (text: &'static str)
        ensures
            text@ == rule_message(self),
    {
        match self {
            Rule::NickLength => "nick length must be smaller than 32 characters",
            Rule::NameLength => "name length must be smaller than 100 characters",
            Rule::StackCount => "stack length must be smaller than 32 characters",
            Rule::TechLength => "Tech length must be smaller than 32 characters",
        }
    }
}

impl View for Person {
    type V = PersonView;

    open spec fn view(&self) -> PersonView {
        PersonView {
            id: self.id,
            name: self.name@,
            nick: self.nick@,
            birth_date: self.birth_date,
            stack: stack_view(self.stack),
        }
    }
}

impl PersonInput {
    /// The first rule, in checking order, that these fields break, if any.
    pub open spec fn violation(self) -> Option<Rule> {
        first_violation(self.name@, self.nick@, stack_view(self.stack))
    }

    /// `person` holds exactly these fields, and this identifier if one was
    /// supplied.
    pub open spec fn kept_by(self, person: Person) -> bool {
        &&& person.name == self.name
        &&& person.nick == self.nick
        &&& person.birth_date == self.birth_date
        &&& person.stack == self.stack
        &&& self.id matches Some(given) ==> person.id == given
    }

    /// `made` is what these fields are owed: a person that holds them when
    /// they break no rule, else the report of the first rule they break.
    pub open spec fn gives(self, made: Result<Person, PersonParserError>) -> bool {
        match self.violation() {
            None => made matches Ok(person) && self.kept_by(person),
            Some(rule) => made matches Err(err) && reports(err, rule),
        }
    }
}

/// A copy of a list of texts, entry by entry.
fn copy_texts(entries: &Vec<String>) -> (copy: Vec<String>)
    ensures
        texts(copy@) == texts(entries@),
{
    let mut copy: Vec<String> = Vec::new();
    let mut i: usize = 0;
    while i < entries.len()
        invariant
            i <= entries.len(),
            copy.len() == i,
            forall|k: int| 0 <= k < i ==> (#[trigger] copy@[k])@ == entries@[k]@,
        decreases entries.len() - i,
    {
        copy.push(entries[i].clone());
        i += 1;
    }
    copy
}

/// Whether some entry has more than `MAX_TECH` characters.
fn any_long_entry(entries: &Vec<String>) -> (found: bool)
    ensures
        found == has_long_entry(texts(entries@)),
{
    let mut i: usize = 0;
    while i < entries.len()
        invariant
            i <= entries.len(),
            forall|k: int| 0 <= k < i ==> (#[trigger] texts(entries@)[k]).len() <= MAX_TECH,
        decreases entries.len() - i,
    {
        if entries[i].as_str().unicode_len() > MAX_TECH {
            assert(texts(entries@)[i as int].len() > MAX_TECH);
            return true;
        }
        i += 1;
    }
    false
}

impl Clone for Person {
    /// A copy of this person, with every field kept.
    fn clone(&self) -> (copy: Person)
        ensures
            copy@ == self@,
    {
        let stack = match &self.stack {
            Some(entries) => Some(copy_texts(entries)),
            None => None,
        };
        Person {
            id: self.id,
            name: self.name.clone(),
            nick: self.nick.clone(),
            birth_date: self.birth_date,
            stack,
        }
    }
}

impl Person {
    /// Checks the length rules in their order and answers with the first one
    /// that is broken; a person that breaks none comes back as a copy.
    pub fn apply_rules(person: &Person) -> (checked: Result<Person, PersonParserError>)
        ensures
            match first_violation(person@.name, person@.nick, person@.stack) {
                None => checked matches Ok(accepted) && accepted@ == person@,
                Some(rule) => checked matches Err(err) && reports(err, rule),
            },
    {
        if person.nick.as_str().unicode_len() > MAX_NICK {
            return Err(PersonParserError::LengthError(Rule::NickLength.message()));
        }
        if person.name.as_str().unicode_len() > MAX_NAME {
            return Err(PersonParserError::LengthError(Rule::NameLength.message()));
        }
        match &person.stack {
            Some(entries) => {
                if entries.len() > MAX_STACK {
                    return Err(PersonParserError::LengthError(Rule::StackCount.message()));
                }
                if any_long_entry(entries) {
                    return Err(PersonParserError::LengthError(Rule::TechLength.message()));
                }
            },
            None => {},
        }
        Ok(person.clone())
    }

    /// Turns the fields into a person, or reports the first length rule
    /// that they break. A supplied identifier is kept; an absent one is
    /// replaced by a fresh one.
    pub fn from_input(input: PersonInput) -> (made: Result<Person, PersonParserError>)
        ensures
            input.gives(made),
    {
        let id = match input.id {
            Some(given) => given,
            None => fresh_id(),
        };
        let person = Person {
            id,
            name: input.name,
            nick: input.nick,
            birth_date: input.birth_date,
            stack: input.stack,
        };
        match Person::apply_rules(&person) {
            Ok(_) => Ok(person),
            Err(err) => Err(err),
        }
    }

    /// Builds a person with a fresh identifier from the given fields, or
    /// reports the first length rule that the fields break.
    pub fn new(
        name: String,
        nick: String,
        birth_date: Date,
        stack: Option<Vec<String>>,
    ) -> (made: Result<Person, PersonParserError>)
        ensures
            match first_violation(name@, nick@, stack_view(stack)) {
                None => {
                    &&& made matches Ok(person)
                    &&& person.name == name
                    &&& person.nick == nick
                    &&& person.birth_date == birth_date
                    &&& person.stack == stack
                },
                Some(rule) => made matches Err(err) && reports(err, rule),
            },
    {
        Person::from_input(PersonInput { id: None, name, nick, birth_date, stack })
    }

    /// Finishes the decoding of a person from JSON text. A decoding that
    /// failed is reported as it is; fields that were decoded are turned into
    /// a person as `from_input` does.
    pub fn from_decoded(decoded: Result<PersonInput, serde_json::Error>) -> (made: Result<
        Person,
        PersonParserError,
    >)
        ensures
            match decoded {
                Err(failure) => made matches Err(PersonParserError::JsonError(reported))
                    && reported == failure,
                Ok(input) => input.gives(made),
            },
    {
        match decoded {
            Ok(input) => Person::from_input(input),
            Err(failure) => Err(PersonParserError::JsonError(failure)),
        }
    }
}

/// No entry has more than `MAX_TECH` characters.
pub open spec fn all_entries_short(entries: Seq<Seq<char>>) -> bool {
    forall|i: int| 0 <= i < entries.len() ==> (#[trigger] entries[i]).len() <= MAX_TECH
}

/// Fields break no rule exactly when the nick, the name, the number of stack
/// entries and every single entry are within their limits.
pub proof fn fields_within_limits_break_no_rule(
    name: Seq<char>,
    nick: Seq<char>,
    stack: Option<Seq<Seq<char>>>,
)
    ensures
        first_violation(name, nick, stack) is None <==> {
            &&& nick.len() <= MAX_NICK
            &&& name.len() <= MAX_NAME
            &&& stack_entries(stack).len() <= MAX_STACK
            &&& all_entries_short(stack_entries(stack))
        },
{
}

/// Fields within their limits always give a person, and the person holds
/// every one of them unchanged; only an identifier that was left out is new.
pub proof fn fields_within_limits_give_a_person(
    input: PersonInput,
    made: Result<Person, PersonParserError>,
)
    requires
        input.gives(made),
        input.nick@.len() <= MAX_NICK,
        input.name@.len() <= MAX_NAME,
        stack_entries(stack_view(input.stack)).len() <= MAX_STACK,
        all_entries_short(stack_entries(stack_view(input.stack))),
    ensures
        made matches Ok(person) && input.kept_by(person),
{
    fields_within_limits_break_no_rule(input.name@, input.nick@, stack_view(input.stack));
}

/// A nick that is too long is what gets reported, whatever the other fields
/// hold.
pub proof fn long_nick_is_reported(
    name: Seq<char>,
    nick: Seq<char>,
    stack: Option<Seq<Seq<char>>>,
)
    requires
        nick.len() > MAX_NICK,
    ensures
        first_violation(name, nick, stack) == Some(Rule::NickLength),
{
}

/// A name that is too long is what gets reported, once the nick is within
/// its limit.
pub proof fn long_name_is_reported(
    name: Seq<char>,
    nick: Seq<char>,
    stack: Option<Seq<Seq<char>>>,
)
    requires
        nick.len() <= MAX_NICK,
        name.len() > MAX_NAME,
    ensures
        first_violation(name, nick, stack) == Some(Rule::NameLength),
{
}

/// A stack with too many entries is what gets reported, once the nick and
/// the name are within their limits.
pub proof fn crowded_stack_is_reported(
    name: Seq<char>,
    nick: Seq<char>,
    entries: Seq<Seq<char>>,
)
    requires
        nick.len() <= MAX_NICK,
        name.len() <= MAX_NAME,
        entries.len() > MAX_STACK,
    ensures
        first_violation(name, nick, Some(entries)) == Some(Rule::StackCount),
{
}

/// An entry that is too long is what gets reported, once the nick, the name
/// and the number of entries are within their limits.
pub proof fn long_entry_is_reported(
    name: Seq<char>,
    nick: Seq<char>,
    entries: Seq<Seq<char>>,
    at: int,
)
    requires
        nick.len() <= MAX_NICK,
        name.len() <= MAX_NAME,
        entries.len() <= MAX_STACK,
        0 <= at < entries.len(),
        entries[at].len() > MAX_TECH,
    ensures
        first_violation(name, nick, Some(entries)) == Some(Rule::TechLength),
{
}

/// An absent stack and an empty one are judged alike.
pub proof fn absent_stack_counts_as_empty(name: Seq<char>, nick: Seq<char>)
    ensures
        first_violation(name, nick, None) == first_violation(name, nick, Some(Seq::empty())),
{
}

} // verus!
