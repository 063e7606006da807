//! Errors as text.

use vstd::prelude::*;
use vstd::string::to_string_from_display_ensures;

verus! {

/// Turns the error of a result into its text and leaves a success as it is.
pub trait ToStringResult<S, E> {
    fn to_string_result(self) -> Result<S, String>;
}

impl<S, E: std::fmt::Display> ToStringResult<S, E> for Result<S, E> {
    fn to_string_result(self) -> (result: Result<S, String>)
        ensures
            match self {
                Ok(value) => result == Ok::<S, String>(value),
                Err(error) => result is Err && to_string_from_display_ensures::<E>(
                    &error,
                    result->Err_0,
                ),
            },
    {
        match self {
            Ok(value) => Ok(value),
            Err(error) => Err(error.to_string()),
        }
    }
}

} // verus!
