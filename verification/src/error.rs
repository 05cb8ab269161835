//! Errors produced by this library.

use vstd::prelude::*;

verus! {

/// An error reported by the native engine when an object could not be
/// created.  Carries the engine's numeric error code.
#[derive(Debug, Clone, Copy, PartialEq, Eq, Structural)]
pub enum Error {
    Saucer(i32),
}

impl Error {
    /// The numeric error code the engine reported.
    pub fn code(&self) -> (c: i32)
        ensures
            *self == Error::Saucer(c),
    {
        match self {
            Error::Saucer(c) => *c,
        }
    }
}

/// Decides what an object creation came to: a pointer from the engine means
/// the object exists, a null answer surfaces the engine's error code as an
/// explicit error value rather than a crash, so the caller can retry or give
/// up at this one point.
pub fn creation_result(pointer: Option<u64>, code: i32) -> (r: Result<u64, Error>)
    ensures
        match pointer {
            Some(p) => r == Ok::<u64, Error>(p),
            None => r == Err::<u64, Error>(Error::Saucer(code)),
        },
{
    match pointer {
        Some(p) => Ok(p),
        None => Err(Error::Saucer(code)),
    }
}

} // verus!
