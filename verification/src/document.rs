//! The document that settings travel in: a JSON value as a tree.
//!
//! The text of a document is read and written outside this library, by
//! a JSON reader and writer. What the library holds is the tree between
//! them, so that which members a settings object has, what they are
//! called and what they may hold is decided and proved here.

use vstd::prelude::*;
use crate::number::{Double, Single};

verus! {

/// A JSON number, by the readings of it that are known. The integer
/// reading is the number itself where it is a whole number that fits 64
/// bits without a sign. The other two are the number rounded to single
/// and to double precision. A reader fills in every reading that the
/// number has; a writer has one of them and writes from that one.
#[derive(Debug, Clone, Copy, PartialEq, Eq, Structural)]
pub struct Number {
    pub integer: Option<u64>,
    pub single: Option<Single>,
    pub double: Option<Double>,
}

/// A JSON value.
#[derive(Debug)]
pub enum Json {
    Null,
    Bool(bool),
    Number(Number),
    Text(String),
    Array(Vec<Json>),
    /// The members of an object, in the order of the text.
    Object(Vec<Member>),
}

/// A member of a JSON object.
#[derive(Debug)]
pub struct Member {
    pub name: String,
    pub value: Json,
}

/// The value of the first member with the given name, from `start` on.
pub open spec fn lookup_from(members: Seq<Member>, name: Seq<char>, start: int) -> Option<Json>
    decreases members.len() - start,
{
    if start < 0 || start >= members.len() {
        None
    } else if members[start].name@ == name {
        Some(members[start].value)
    } else {
        lookup_from(members, name, start + 1)
    }
}

/// How many members have the given name, from `start` on.
pub open spec fn occurrences_from(members: Seq<Member>, name: Seq<char>, start: int) -> nat
    decreases members.len() - start,
{
    if start < 0 || start >= members.len() {
        0
    } else if members[start].name@ == name {
        1 + occurrences_from(members, name, start + 1)
    } else {
        occurrences_from(members, name, start + 1)
    }
}

impl Number {
    /// A number known as a whole number.
    pub open spec fn integer_reading(value: u64) -> Number {
        Number { integer: Some(value), single: None, double: None }
    }

    /// A number known in single precision.
    pub open spec fn single_reading(value: Single) -> Number {
        Number { integer: None, single: Some(value), double: None }
    }

    /// A number known in double precision.
    pub open spec fn double_reading(value: Double) -> Number {
        Number { integer: None, single: None, double: Some(value) }
    }

    /// A number known as a whole number.
    pub fn of_integer(value: u64) -> (number: Number)
        ensures
            number == Number::integer_reading(value),
    {
        Number { integer: Some(value), single: None, double: None }
    }

    /// A number known in single precision.
    pub fn of_single(value: Single) -> (number: Number)
        ensures
            number == Number::single_reading(value),
    {
        Number { integer: None, single: Some(value), double: None }
    }

    /// A number known in double precision.
    pub fn of_double(value: Double) -> (number: Number)
        ensures
            number == Number::double_reading(value),
    {
        Number { integer: None, single: None, double: Some(value) }
    }
}

/// The equality of string slices of the standard library. Taken on
/// trust: it answers true exactly when both slices hold the same
/// characters in the same order.
pub assume_specification[ <str as PartialEq>::eq ](left: &str, right: &str) -> (equal: bool)
    ensures
        equal == (left@ == right@),
;

impl Json {
    /// The value of the member with the given name, where the document
    /// is an object that has exactly one member of that name. An object
    /// that holds the name twice has no such field, and neither has one
    /// that lacks it.
    pub open spec fn field(self, name: Seq<char>) -> Option<Json> {
        match self {
            Json::Object(members) => if occurrences_from(members@, name, 0) == 1 {
                lookup_from(members@, name, 0)
            } else {
                None
            },
            _ => None,
        }
    }

    /// The text that the document is, if it is one.
    pub open spec fn text(self) -> Option<Seq<char>> {
        match self {
            Json::Text(text) => Some(text@),
            _ => None,
        }
    }

    /// The items of the document, if it is an array.
    pub open spec fn items(self) -> Option<Seq<Json>> {
        match self {
            Json::Array(items) => Some(items@),
            _ => None,
        }
    }

    /// The value of the member with the given name, where the document
    /// is an object that has exactly one member of that name.
    pub fn member(&self, name: &str) -> (found: Option<&Json>)
        ensures
            match found {
                Some(value) => self.field(name@) == Some(*value),
                None => self.field(name@) is None,
            },
    {
        match self {
            Json::Object(members) => {
                let mut found: Option<usize> = None;
                let mut next: usize = 0;
                while next < members.len()
                    invariant
                        next <= members.len(),
                        *self == Json::Object(*members),
                        match found {
                            Some(position) => {
                                &&& position < next
                                &&& lookup_from(members@, name@, 0) == Some(
                                    members@[position as int].value,
                                )
                                &&& occurrences_from(members@, name@, 0) == 1 + occurrences_from(
                                    members@,
                                    name@,
                                    next as int,
                                )
                            },
                            None => {
                                &&& lookup_from(members@, name@, 0) == lookup_from(
                                    members@,
                                    name@,
                                    next as int,
                                )
                                &&& occurrences_from(members@, name@, 0) == occurrences_from(
                                    members@,
                                    name@,
                                    next as int,
                                )
                            },
                        },
                    decreases members.len() - next,
                {
                    if *members[next].name.as_str() == *name {
                        if found.is_some() {
                            return None;
                        }
                        found = Some(next);
                    }
                    next = next + 1;
                }
                match found {
                    Some(position) => Some(&members[position].value),
                    None => None,
                }
            },
            _ => None,
        }
    }
}

/// A member that shares its name with no other member is the field of
/// that name.
pub proof fn lemma_lookup_finds(members: Seq<Member>, position: int)
    requires
        0 <= position < members.len(),
        forall|other: int|
            0 <= other < members.len() && other != position ==> members[other].name@
                != members[position].name@,
    ensures
        lookup_from(members, members[position].name@, 0) == Some(members[position].value),
        occurrences_from(members, members[position].name@, 0) == 1,
{
    lemma_lookup_from(members, position, 0);
}

proof fn lemma_lookup_from(members: Seq<Member>, position: int, start: int)
    requires
        0 <= start <= members.len(),
        0 <= position < members.len(),
        forall|other: int|
            0 <= other < members.len() && other != position ==> members[other].name@
                != members[position].name@,
    ensures
        start <= position ==> lookup_from(members, members[position].name@, start) == Some(
            members[position].value,
        ),
        occurrences_from(members, members[position].name@, start) == if start <= position {
            1nat
        } else {
            0nat
        },
    decreases members.len() - start,
{
    if start < members.len() {
        lemma_lookup_from(members, position, start + 1);
    }
}

} // verus!
