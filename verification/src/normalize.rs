//! Bringing every value that is either present or absent into one canonical form.

use vstd::prelude::*;

verus! {

/// A value that either carries a payload or carries none.
///
/// An implementation states what it holds in `as_option`, and `try_as_option` hands
/// exactly that out, consuming the value. The conversion is total: it has no
/// precondition, and an implementation cannot add one.
pub trait TryAsOption {
    /// The type of the payload.
    type Output;

    /// The canonical form of this value: `Some(payload)` when it is present, `None`
    /// when it is absent.
    spec fn as_option(self) -> Option<Self::Output>;

    /// Converts this value to its canonical form.
    fn try_as_option(self) -> (canonical: Option<Self::Output>)
        ensures
            canonical == self.as_option(),
    ;
}

/// An `Option` is its own canonical form.
impl<T> TryAsOption for Option<T> {
    type Output = T;

    open spec fn as_option(self) -> Option<T> {
        self
    }

    fn try_as_option(self) -> (canonical: Option<T>) {
        self
    }
}

/// A `Result` is present when it is `Ok`. The detail of a failure is dropped.
impl<T, E> TryAsOption for Result<T, E> {
    type Output = T;

    open spec fn as_option(self) -> Option<T> {
        match self {
            Ok(payload) => Some(payload),
            Err(_) => None,
        }
    }

    fn try_as_option(self) -> (canonical: Option<T>) {
        self.ok()
    }
}

} // verus!
