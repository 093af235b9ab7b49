//! Validation errors of the configuration editor.
use vstd::prelude::*;

verus! {

/// A field that failed validation, with the reason.
#[derive(Debug, Clone)]
pub struct FormError {
    pub field: String,
    pub message: String,
}

impl FormError {
    /// An error for `field` with the given message.
    pub fn new(field: String, message: String) -> (e: Self)
        ensures
            e.field == field,
            e.message == message,
    {
        Self { field, message }
    }
}

} // verus!
