use crate::error::Error;
use vstd::prelude::*;

verus! {

/// A cell identifier of the hierarchical hexagonal grid.
///
/// A live value holds either an integer that the engine's validity predicate
/// accepted, or a nonzero integer that a successful engine call returned.
/// Equality and order are those of the raw integer and carry no spatial meaning.
#[derive(Debug, Clone, Copy, PartialEq, Eq, Structural, PartialOrd, Ord, Hash)]
pub struct H3Index(pub u64);

impl H3Index {
    /// The raw 64-bit identifier.
    pub fn value(self) -> (r: u64)
        ensures
            r == self.0,
    {
        self.0
    }

    /// Admits `h` as an index given the engine's validity verdict on it
    /// (nonzero means valid).
    pub fn from_validity(h: u64, verdict: i32) -> (r: Result<H3Index, Error>)
        ensures
            verdict != 0 ==> r == Ok::<H3Index, Error>(H3Index(h)),
            verdict == 0 ==> r == Err::<H3Index, Error>(Error::InvalidIndex { value: h }),
    {
        if verdict == 0 {
            Err(Error::InvalidIndex { value: h })
        } else {
            Ok(H3Index(h))
        }
    }

    /// Turns the identifier that an indexing or parent call of the engine
    /// returned into an index; zero is the engine's failure sentinel.
    pub fn from_engine(raw: u64) -> (r: Result<H3Index, Error>)
        ensures
            raw != 0 ==> r == Ok::<H3Index, Error>(H3Index(raw)),
            raw == 0 ==> r == Err::<H3Index, Error>(Error::FailedConversion),
    {
        if raw == 0 {
            Err(Error::FailedConversion)
        } else {
            Ok(H3Index(raw))
        }
    }

    /// Turns the identifier that the engine's parser returned for `s` into an
    /// index; zero is the engine's failure sentinel.
    pub fn from_parsed(s: &str, raw: u64) -> (r: Result<H3Index, Error>)
        ensures
            raw != 0 ==> r == Ok::<H3Index, Error>(H3Index(raw)),
            raw == 0 ==> (r matches Err(Error::InvalidString { value }) && value@ == s@),
    {
        if raw == 0 {
            Err(Error::InvalidString { value: s.to_owned() })
        } else {
            Ok(H3Index(raw))
        }
    }

    /// Turns the engine's grid distance `d` from `self` to `other` into a
    /// result; a negative value is the engine's failure sentinel.
    pub fn distance_from_engine(self, other: H3Index, d: i32) -> (r: Result<i32, Error>)
        ensures
            d >= 0 ==> r == Ok::<i32, Error>(d),
            d < 0 ==> r == Err::<i32, Error>(Error::IncompatibleIndexes { left: self, right: other }),
    {
        if d < 0 {
            Err(Error::IncompatibleIndexes { left: self, right: other })
        } else {
            Ok(d)
        }
    }

    /// Normalises an integer answer of one of the engine's predicates
    /// (pentagon, Class III) to a boolean.
    pub fn flag_from_engine(v: i32) -> (r: bool)
        ensures
            r == (v != 0),
    {
        v != 0
    }
}

} // verus!
