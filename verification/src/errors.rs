//! Error taxonomy.
//!
//! `ValidationError` names the offending input field and is raised before
//! any store work; `StoreError` covers the persistent store, including
//! the allow-list refusal of a search field.

use crate::text::{append_str, chars_to_string};
use vstd::prelude::*;

verus! {

/// A caller-input problem, detected before any store operation.
#[derive(Clone, Copy, Debug, PartialEq, Eq, Structural)]
pub enum ValidationError {
    InvalidDateFormat,
    InvalidCategory,
    InvalidStorageCondition,
    InvalidQuantity,
    EmptyName,
}

impl ValidationError {
    /// The human-readable message for this error.
    pub open spec fn spec_message(self) -> Seq<char> {
        match self {
            ValidationError::InvalidDateFormat => "Please enter a valid date in DD-MM-YYYY format."@,
            ValidationError::InvalidCategory => "Invalid food type"@,
            ValidationError::InvalidStorageCondition => "Invalid storage type"@,
            ValidationError::InvalidQuantity => "Invalid quantity"@,
            ValidationError::EmptyName => "Input was empty"@,
        }
    }

    /// The message as a `String`.
    pub fn message(&self) -> (r: String)
        ensures
            r@ == self.spec_message(),
    {
        let mut out: Vec<char> = Vec::new();
        match self {
            ValidationError::InvalidDateFormat => append_str(
                &mut out,
                "Please enter a valid date in DD-MM-YYYY format.",
            ),
            ValidationError::InvalidCategory => append_str(&mut out, "Invalid food type"),
            ValidationError::InvalidStorageCondition => append_str(&mut out, "Invalid storage type"),
            ValidationError::InvalidQuantity => append_str(&mut out, "Invalid quantity"),
            ValidationError::EmptyName => append_str(&mut out, "Input was empty"),
        }
        chars_to_string(&out)
    }
}

/// A persistent-store failure.
///
/// `DisallowedSearchField` is raised before any query is built when a
/// search names a column outside the allow-list; `Backend` carries the
/// driver message of a backing-store failure verbatim.
#[derive(Clone, Debug, PartialEq, Eq)]
pub enum StoreError {
    DisallowedSearchField,
    Backend(String),
}

} // verus!
