//! Failures of request validation, and the error number they publish.
//!
//! A validation failure is a tree. Each field of the validated value that
//! failed has an entry; the entry holds the field's own failures, or the
//! tree of a nested value, or the trees of the items of a nested list.

use crate::text::{parse_decimal, parse_usize};
use vstd::prelude::*;

verus! {

/// One failed check on one field.
#[derive(Clone, Debug, PartialEq, Eq)]
pub struct ValidationError {
    /// The code of the check. A code that reads as a number is an error
    /// number.
    pub code: String,
    /// A message for people, where the check has one.
    pub message: Option<String>,
}

/// What failed under one field.
#[derive(Debug, PartialEq, Eq)]
pub enum ValidationErrorsKind {
    /// The field is a nested value that failed validation itself.
    Struct(Box<ValidationErrors>),
    /// The field is a list; each failing item comes with its index, in
    /// rising order of index.
    List(Vec<(usize, ValidationErrors)>),
    /// The checks that the field itself failed.
    Field(Vec<ValidationError>),
}

/// The failures of one validated value.
#[derive(Debug, PartialEq, Eq)]
pub struct ValidationErrors {
    /// How the failure reads as a whole.
    pub message: String,
    /// The failing fields by name, in the order in which they are walked.
    pub errors: Vec<(String, ValidationErrorsKind)>,
}

/// The first error number among the checks from position `from` on.
pub open spec fn field_errno(checks: Seq<ValidationError>, from: int) -> Option<usize>
    decreases checks.len() - from,
{
    if from < 0 || from >= checks.len() {
        None
    } else {
        match parse_usize(checks[from].code@) {
            Some(n) => Some(n),
            None => field_errno(checks, from + 1),
        }
    }
}

/// The error number of a validation failure: the first code that reads as a
/// number, walking the fields in order and each field's failures in depth.
pub open spec fn validation_errno(e: ValidationErrors) -> Option<usize>
    decreases e, 0nat,
{
    entries_errno(e.errors@, 0)
}

/// The first error number under the fields from position `from` on.
pub open spec fn entries_errno(entries: Seq<(String, ValidationErrorsKind)>, from: int) -> Option<
    usize,
>
    decreases entries, entries.len() - from,
{
    if from < 0 || from >= entries.len() {
        None
    } else {
        match kind_errno(entries[from].1) {
            Some(n) => Some(n),
            None => entries_errno(entries, from + 1),
        }
    }
}

/// The first error number under one field.
pub open spec fn kind_errno(kind: ValidationErrorsKind) -> Option<usize>
    decreases kind, 0nat,
{
    match kind {
        ValidationErrorsKind::Struct(inner) => validation_errno(*inner),
        ValidationErrorsKind::List(items) => items_errno(items@, 0),
        ValidationErrorsKind::Field(checks) => field_errno(checks@, 0),
    }
}

/// The first error number under the list items from position `from` on.
pub open spec fn items_errno(items: Seq<(usize, ValidationErrors)>, from: int) -> Option<usize>
    decreases items, items.len() - from,
{
    if from < 0 || from >= items.len() {
        None
    } else {
        match validation_errno(items[from].1) {
            Some(n) => Some(n),
            None => items_errno(items, from + 1),
        }
    }
}

/// Finds the first error number among the failures of one field.
fn errno_from_field(checks: &Vec<ValidationError>) -> (errno: Option<usize>)
    ensures
        errno == field_errno(checks@, 0),
{
    let mut i: usize = 0;
    while i < checks.len()
        invariant
            i <= checks.len(),
            field_errno(checks@, 0) == field_errno(checks@, i as int),
        decreases checks.len() - i,
    {
        match parse_decimal(checks[i].code.as_str()) {
            Some(n) => {
                return Some(n);
            },
            None => {},
        }
        i = i + 1;
    }
    None
}

/// Finds the first error number under one field.
fn errno_from_kind(kind: &ValidationErrorsKind) -> (errno: Option<usize>)
    ensures
        errno == kind_errno(*kind),
    decreases kind, 0nat,
{
    match kind {
        ValidationErrorsKind::Struct(inner) => errno_from_validation_errors(inner),
        ValidationErrorsKind::List(items) => {
            let mut i: usize = 0;
            while i < items.len()
                invariant
                    i <= items.len(),
                    kind_errno(*kind) == items_errno(items@, 0),
                    items_errno(items@, 0) == items_errno(items@, i as int),
                    decreases_to!(kind => items@),
                decreases items.len() - i,
            {
                match errno_from_validation_errors(&items[i].1) {
                    Some(n) => {
                        return Some(n);
                    },
                    None => {},
                }
                i = i + 1;
            }
            None
        },
        ValidationErrorsKind::Field(checks) => errno_from_field(checks),
    }
}

/// Gets the error number of a validation failure. Where several codes read
/// as numbers, the first one in the walk is the one.
pub fn errno_from_validation_errors(e: &ValidationErrors) -> (errno: Option<usize>)
    ensures
        errno == validation_errno(*e),
    decreases e, 1nat,
{
    let mut i: usize = 0;
    while i < e.errors.len()
        invariant
            i <= e.errors.len(),
            entries_errno(e.errors@, 0) == entries_errno(e.errors@, i as int),
        decreases e.errors.len() - i,
    {
        match errno_from_kind(&e.errors[i].1) {
            Some(n) => {
                return Some(n);
            },
            None => {},
        }
        i = i + 1;
    }
    None
}

} // verus!
