//! What can go wrong with one row or one workbook.

use vstd::prelude::*;
use crate::schema::Field;

verus! {

/// Why a rule could not yield the value of its field.
#[derive(Clone, Copy, Debug, PartialEq, Eq, Structural)]
pub enum Cause {
    /// The row has no cell at the rule's column.
    ColumnMissing,
    /// The cell holds another kind of content than the rule reads: a schema
    /// mismatch.
    KindMismatch,
    /// The cell is empty and the field needs a value.
    Required,
    /// The text of the cell is no date in the rule's pattern.
    BadDate,
    /// The text of the cell is no integer.
    BadNumber,
}

/// A failed rule: the column it read and the cause.
#[derive(Clone, Copy, Debug, PartialEq, Eq, Structural)]
pub struct Failure {
    pub column: usize,
    pub cause: Cause,
}

/// A field of a row that could not be normalized.
#[derive(Clone, Copy, Debug, PartialEq, Eq, Structural)]
pub struct FieldError {
    /// The position of the row among the data rows, from zero.
    pub row: usize,
    /// The column that the failed rule read, from zero.
    pub column: usize,
    /// The field that the rule was to yield.
    pub field: Field,
    pub cause: Cause,
}

impl FieldError {
    /// Whether the error is a schema mismatch: the sheet does not have the
    /// layout that the mapping table describes.
    pub open spec fn spec_is_schema_mismatch(self) -> bool {
        self.cause == Cause::ColumnMissing || self.cause == Cause::KindMismatch
    }

    /// Whether the error is a schema mismatch.
    #[verifier::when_used_as_spec(spec_is_schema_mismatch)]
    pub fn is_schema_mismatch(self) -> (mismatch: bool)
        ensures
            mismatch == self.spec_is_schema_mismatch(),
    {
        self.cause == Cause::ColumnMissing || self.cause == Cause::KindMismatch
    }
}

/// The classes of error of an import.
#[derive(Clone, Copy, Debug, PartialEq, Eq, Structural)]
pub enum ErrorClass {
    /// The workbook could not be read: no row is looked at.
    Parse,
    /// A cell is not of the kind that the mapping table expects.
    SchemaMismatch,
    /// A field fails its rule.
    Field,
    /// A record violates an invariant of the store.
    Validation,
    /// The store refuses the record for a constraint other than the
    /// identifier.
    Conflict,
    /// The store could not be reached or failed while writing.
    Storage,
}

impl ErrorClass {
    /// Whether an error of this class ends the import before any row is
    /// looked at.
    pub open spec fn spec_is_import_fatal(self) -> bool {
        self == ErrorClass::Parse
    }

    /// Whether an error of this class ends the import before any row is
    /// looked at.
    #[verifier::when_used_as_spec(spec_is_import_fatal)]
    pub fn is_import_fatal(self) -> (fatal: bool)
        ensures
            fatal == self.spec_is_import_fatal(),
    {
        self == ErrorClass::Parse
    }

    /// Whether the caller may try the same request again with hope: only
    /// where the store itself failed.
    pub open spec fn spec_is_retryable(self) -> bool {
        self == ErrorClass::Storage
    }

    /// Whether the caller may try the same request again with hope.
    #[verifier::when_used_as_spec(spec_is_retryable)]
    pub fn is_retryable(self) -> (retryable: bool)
        ensures
            retryable == self.spec_is_retryable(),
    {
        self == ErrorClass::Storage
    }
}

impl FieldError {
    /// The class of the error: a schema mismatch where the sheet does not
    /// have the layout of the mapping table, a field error otherwise.
    pub fn class(self) -> (class: ErrorClass)
        ensures
            class == if self.spec_is_schema_mismatch() {
                ErrorClass::SchemaMismatch
            } else {
                ErrorClass::Field
            },
    {
        if self.is_schema_mismatch() {
            ErrorClass::SchemaMismatch
        } else {
            ErrorClass::Field
        }
    }
}

} // verus!
