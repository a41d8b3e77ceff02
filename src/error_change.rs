//! Turning a failure of any kind into an error message of one's choosing.
use vstd::prelude::*;

verus! {

/// A value that either carries a `T` or stands for a failure.
pub trait ChangeError<T>: Sized {
    /// The `T` that the value carries, or `None` for a failure.
    spec fn success_value(&self) -> Option<T>;

    /// The carried value, or the message `s` as the error.
    fn set_error(self, s: &str) -> (r: Result<T, String>)
        ensures
            self.success_value() is Some ==> r == Ok::<T, String>(self.success_value()->0),
            self.success_value() is None ==> r is Err && r->Err_0@ == s@,
    ;
}

impl<T, E> ChangeError<T> for Result<T, E> {
    open spec fn success_value(&self) -> Option<T> {
        match self {
            Ok(t) => Some(*t),
            Err(_) => None,
        }
    }

    fn set_error(self, s: &str) -> (r: Result<T, String>) {
        match self {
            Ok(t) => Ok(t),
            Err(_) => Err(s.to_owned()),
        }
    }
}

impl<T> ChangeError<T> for Option<T> {
    open spec fn success_value(&self) -> Option<T> {
        *self
    }

    fn set_error(self, s: &str) -> (r: Result<T, String>) {
        match self {
            Some(t) => Ok(t),
            None => Err(s.to_owned()),
        }
    }
}

} // verus!
