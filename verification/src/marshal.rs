//! Conversions between the library's values and the foreign call
//! convention: Boolean variants and arrays that are described by an
//! inclusive pair of index bounds.

use vstd::prelude::*;
use crate::error::{Error, Operation};

verus! {

/// The greatest number of elements that an array with lower bound 0 can
/// index with 32-bit signed indices.
pub const MAX_ENCODED_LENGTH: usize = 0x8000_0000;

/// The index bounds of a foreign array of one dimension. Both bounds are
/// inclusive: an array of one element has equal bounds, and an empty one
/// has an upper bound just below the lower.
#[derive(Debug, Clone, Copy, PartialEq, Eq, Structural)]
pub struct ArrayBounds {
    pub lower: i32,
    pub upper: i32,
}

impl ArrayBounds {
    /// Whether the pair describes an array: the upper bound is at least
    /// the lower bound less one.
    pub open spec fn legal(self) -> bool {
        self.upper >= self.lower - 1
    }

    /// The number of elements: `upper - lower + 1`, and none where the
    /// upper bound lies below the lower.
    pub open spec fn count(self) -> nat {
        if self.upper >= self.lower {
            (self.upper - self.lower + 1) as nat
        } else {
            0
        }
    }

    /// The foreign index of the element at `position`, counted from 0.
    pub open spec fn index_at(self, position: int) -> i32 {
        (self.lower + position) as i32
    }

    /// The number of elements between the bounds, both included.
    pub fn element_count(self) -> (count: u64)
        ensures
            count == self.count(),
            self.legal() ==> count == self.upper - self.lower + 1,
    {
        if self.upper >= self.lower {
            (self.upper as i64 - self.lower as i64 + 1) as u64
        } else {
            0
        }
    }

    /// The bounds of an array that holds `length` elements from index 0
    /// on. A length that 32-bit indices cannot reach is an allocation
    /// failure.
    pub fn of_length(length: usize) -> (result: Result<ArrayBounds, Error>)
        ensures
            match result {
                Ok(bounds) => {
                    &&& length <= MAX_ENCODED_LENGTH
                    &&& bounds.lower == 0
                    &&& bounds.upper == length - 1
                    &&& bounds.legal()
                    &&& bounds.count() == length
                },
                Err(error) => {
                    &&& length > MAX_ENCODED_LENGTH
                    &&& error == Error::Interop { operation: Operation::CreateArray }
                },
            },
    {
        if length > MAX_ENCODED_LENGTH {
            Err(Error::Interop { operation: Operation::CreateArray })
        } else {
            Ok(ArrayBounds { lower: 0, upper: (length as i64 - 1) as i32 })
        }
    }
}

/// What the outcome of allocating a foreign array means. An array that
/// was given lets the writing go on. None, which the foreign layer
/// reports as a null pointer, is the interop error that names the
/// allocation: nothing is to be written and nothing to be sent.
pub fn allocation(given: bool) -> (result: Result<(), Error>)
    ensures
        result == if given {
            Ok::<(), Error>(())
        } else {
            Err::<(), Error>(Error::Interop { operation: Operation::CreateArray })
        },
{
    if given {
        Ok(())
    } else {
        Err(Error::Interop { operation: Operation::CreateArray })
    }
}

/// Reads a Boolean variant: zero is false, and every other value is true.
pub fn decode_bool(raw: i16) -> (value: bool)
    ensures
        value == (raw != 0),
{
    raw != 0
}

/// Reads a foreign array into a vector. `fetch` reads the element at one
/// foreign index; it is called once for each index from the lower bound
/// to the upper bound, both included and in rising order, until one call
/// fails. The vector holds what the calls returned, in that order, so it
/// has `upper - lower + 1` elements. The first failure ends the reading
/// with an interop error that names the element access.
pub fn decode_sequence<T, E, F>(bounds: ArrayBounds, fetch: F) -> (result: Result<Vec<T>, Error>)
    where
        F: Fn(i32) -> Result<T, E>,
    requires
        forall|index: i32|
            bounds.lower <= index <= bounds.upper ==> call_requires(fetch, (index,)),
    ensures
        match result {
            Ok(items) => {
                &&& items@.len() == bounds.count()
                &&& bounds.legal() ==> items@.len() == bounds.upper - bounds.lower + 1
                &&& forall|position: int|
                    0 <= position < items@.len() ==> call_ensures(
                        fetch,
                        (bounds.index_at(position),),
                        Ok::<T, E>(#[trigger] items@[position]),
                    )
            },
            Err(error) => {
                &&& error == Error::Interop { operation: Operation::GetArrayElement }
                &&& exists|index: i32, failure: E|
                    bounds.lower <= index <= bounds.upper && call_ensures(
                        fetch,
                        (index,),
                        Err::<T, E>(failure),
                    )
            },
        },
{
    let mut items: Vec<T> = Vec::new();
    let last: i64 = bounds.upper as i64;
    let mut next: i64 = bounds.lower as i64;
    while next <= last
        invariant
            last == bounds.upper,
            bounds.lower <= next,
            next <= last + 1 || next == bounds.lower,
            items@.len() == next - bounds.lower,
            forall|index: i32|
                bounds.lower <= index <= bounds.upper ==> call_requires(fetch, (index,)),
            forall|position: int|
                0 <= position < items@.len() ==> call_ensures(
                    fetch,
                    (bounds.index_at(position),),
                    Ok::<T, E>(#[trigger] items@[position]),
                ),
        decreases last - next + 1,
    {
        let index: i32 = next as i32;
        match fetch(index) {
            Ok(item) => {
                items.push(item);
            },
            Err(failure) => {
                return Err(Error::Interop { operation: Operation::GetArrayElement });
            },
        }
        next = next + 1;
    }
    Ok(items)
}

/// Writes a vector into a foreign array whose lower bound is 0. `store`
/// writes one element at one foreign index; it is called once for each
/// element, with the element's position as the index, in rising order,
/// until one call fails. The result is the bounds of the array that now
/// holds the vector. A vector too long for 32-bit indices is an
/// allocation failure, found before any element is written; the first
/// failure of `store` is an interop error that names the element write.
pub fn encode_sequence<T, E, F>(items: &Vec<T>, store: F) -> (result: Result<ArrayBounds, Error>)
    where
        F: Fn(i32, &T) -> Result<(), E>,
    requires
        forall|position: int|
            0 <= position < items@.len() && position <= i32::MAX ==> call_requires(
                store,
                (position as i32, &#[trigger] items@[position]),
            ),
    ensures
        match result {
            Ok(bounds) => {
                &&& items@.len() <= MAX_ENCODED_LENGTH
                &&& bounds.lower == 0
                &&& bounds.upper == items@.len() - 1
                &&& bounds.count() == items@.len()
                &&& forall|position: int|
                    0 <= position < items@.len() ==> call_ensures(
                        store,
                        (position as i32, &#[trigger] items@[position]),
                        Ok::<(), E>(()),
                    )
            },
            Err(error) => {
                ||| {
                    &&& items@.len() > MAX_ENCODED_LENGTH
                    &&& error == Error::Interop { operation: Operation::CreateArray }
                }
                ||| {
                    &&& items@.len() <= MAX_ENCODED_LENGTH
                    &&& error == Error::Interop { operation: Operation::PutArrayElement }
                    &&& exists|position: int, failure: E|
                        0 <= position < items@.len() && call_ensures(
                            store,
                            (position as i32, &items@[position]),
                            Err::<(), E>(failure),
                        )
                }
            },
        },
{
    let bounds = match ArrayBounds::of_length(items.len()) {
        Ok(bounds) => bounds,
        Err(error) => {
            return Err(error);
        },
    };
    let mut position: usize = 0;
    while position < items.len()
        invariant
            position <= items@.len() <= MAX_ENCODED_LENGTH,
            forall|position: int|
                0 <= position < items@.len() && position <= i32::MAX ==> call_requires(
                    store,
                    (position as i32, &#[trigger] items@[position]),
                ),
            forall|written: int|
                0 <= written < position ==> call_ensures(
                    store,
                    (written as i32, &#[trigger] items@[written]),
                    Ok::<(), E>(()),
                ),
        decreases items@.len() - position,
    {
        let outcome = store(position as i32, &items[position]);
        match outcome {
            Ok(done) => {
                assert(outcome == Ok::<(), E>(()));
            },
            Err(failure) => {
                return Err(Error::Interop { operation: Operation::PutArrayElement });
            },
        }
        position = position + 1;
    }
    Ok(bounds)
}

/// The bounds of an array decide how many elements it has: a legal pair
/// holds `upper - lower + 1` of them, so equal bounds hold exactly one.
pub proof fn lemma_count_of_legal_bounds(bounds: ArrayBounds)
    requires
        bounds.legal(),
    ensures
        bounds.count() == bounds.upper - bounds.lower + 1,
        bounds.lower == bounds.upper ==> bounds.count() == 1,
{
}

} // verus!
