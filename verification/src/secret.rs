//! A redacting wrapper for sensitive values.
//!
//! [`Secret`] holds a value that must never be logged or serialized in
//! cleartext, such as the API key. Its redacted form is `[REDACTED]`, and
//! the inner value is read only through [`Secret::expose`].

use vstd::prelude::*;

verus! {

/// A wrapper around a sensitive value that shows only a redacted form.
#[derive(Clone)]
pub struct Secret<T>(T);

impl<T> Secret<T> {
    /// The wrapped value.
    pub closed spec fn value(&self) -> T {
        self.0
    }

    /// Wrap a sensitive value.
    pub fn new(value: T) -> (r: Self)
        ensures
            r.value() == value,
    {
        Secret(value)
    }

    /// Borrow the inner secret value. Use it only where the secret must be
    /// used (building the `Authorization` header), never for logging.
    pub fn expose(&self) -> (r: &T)
        ensures
            *r == self.value(),
    {
        &self.0
    }

    /// The redacted form shown in place of the value.
    pub fn redacted(&self) -> (r: &'static str)
        ensures
            r@ == "[REDACTED]"@,
    {
        "[REDACTED]"
    }
}

} // verus!
