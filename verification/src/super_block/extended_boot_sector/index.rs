//! The index of one of the eight extended boot sectors.

use vstd::prelude::*;

verus! {

/// A validated slot number between 0 and 7.
#[derive(Clone, Copy, Debug, PartialEq, Eq, Structural)]
pub struct Index(pub u8);

/// The error raised for a slot number outside the eight available slots.
#[derive(Clone, Copy, Debug, PartialEq, Eq, Structural)]
pub enum Error {
    /// The offered slot number, which was 8 or more.
    TooBig(u8),
}

impl Index {
    /// Validates a slot number; only 0 through 7 are accepted.
    pub fn new(index: u8) -> (r: Result<Self, Error>)
        ensures
            index <= 7 ==> (r matches Ok(i) && i.0 == index),
            index > 7 ==> r == Err::<Index, Error>(Error::TooBig(index)),
    {
        if index > 7 {
            Err(Error::TooBig(index))
        } else {
            Ok(Index(index))
        }
    }
}

} // verus!
