//! What can go wrong: text from a user that spells no value, a stored row
//! that is no task, and the failures of a store.

use vstd::prelude::*;

verus! {

/// The kind of value that a piece of text was meant to be.
#[derive(Debug, Clone, Copy, PartialEq, Eq, Structural)]
pub enum Field {
    Status,
    Priority,
    DueDate,
}

/// Text that is none of the accepted spellings of a value.
#[derive(Debug, PartialEq, Eq)]
pub struct ValidationError {
    /// What the text should have been.
    pub field: Field,
    /// The text as it was given.
    pub input: String,
}

/// A validation error as a mathematical value.
pub struct ValidationErrorView {
    pub field: Field,
    pub input: Seq<char>,
}

impl View for ValidationError {
    type V = ValidationErrorView;

    open spec fn view(&self) -> ValidationErrorView {
        ValidationErrorView { field: self.field, input: self.input@ }
    }
}

/// Why a stored row is no task: the column that cannot be read, with what
/// it holds.
#[derive(Debug, PartialEq, Eq)]
pub enum DecodeError {
    /// The column at this place, counted from 0, is missing or holds what
    /// its place does not allow: a number where a text must be, or nothing
    /// where something must be.
    Column(usize),
    /// The identifier is none that a task can have, or not the one that
    /// was asked for.
    Id(i64),
    Status(String),
    Priority(String),
    CreatedAt(String),
    DueDate(String),
}

/// A decode error as a mathematical value.
pub enum DecodeErrorView {
    Column(usize),
    Id(int),
    Status(Seq<char>),
    Priority(Seq<char>),
    CreatedAt(Seq<char>),
    DueDate(Seq<char>),
}

impl View for DecodeError {
    type V = DecodeErrorView;

    open spec fn view(&self) -> DecodeErrorView {
        match self {
            DecodeError::Column(place) => DecodeErrorView::Column(*place),
            DecodeError::Id(id) => DecodeErrorView::Id(*id as int),
            DecodeError::Status(s) => DecodeErrorView::Status(s@),
            DecodeError::Priority(s) => DecodeErrorView::Priority(s@),
            DecodeError::CreatedAt(s) => DecodeErrorView::CreatedAt(s@),
            DecodeError::DueDate(s) => DecodeErrorView::DueDate(s@),
        }
    }
}

impl Clone for DecodeError {
    fn clone(&self) -> (r: DecodeError)
        ensures
            r == *self,
    {
        match self {
            DecodeError::Column(place) => DecodeError::Column(*place),
            DecodeError::Id(id) => DecodeError::Id(*id),
            DecodeError::Status(s) => DecodeError::Status(s.clone()),
            DecodeError::Priority(s) => DecodeError::Priority(s.clone()),
            DecodeError::CreatedAt(s) => DecodeError::CreatedAt(s.clone()),
            DecodeError::DueDate(s) => DecodeError::DueDate(s.clone()),
        }
    }
}

/// rusqlite's error. The library hands it on and never looks inside.
#[verifier::external_type_specification]
#[verifier::external_body]
pub struct ExSqlError(rusqlite::Error);

/// How an operation of a store fails.
#[derive(Debug, PartialEq)]
pub enum StoreError {
    /// No task has the identifier.
    NotFound,
    /// The engine under the store failed; its own error says how.
    Storage(rusqlite::Error),
    /// A stored row is no task.
    Decode(DecodeError),
    /// The clock shows a time that no task can carry.
    ClockOutOfRange,
    /// No identifier can be given: the counter is used up, or the engine gave
    /// a row a number that no task can have.
    IdUnavailable,
}

impl Field {
    /// How a message about this kind of value begins.
    pub open spec fn lead(self) -> Seq<char> {
        match self {
            Field::Status => "Invalid status: "@,
            Field::Priority => "Invalid priority: "@,
            Field::DueDate => "Invalid due date: "@,
        }
    }

    /// The accepted values, as a message names them.
    pub open spec fn accepted(self) -> Seq<char> {
        match self {
            Field::Status => ". (Pending, InProgress, Completed)"@,
            Field::Priority => ". (Low, Medium, High)"@,
            Field::DueDate => ". (YYYY/MM/DD HH:MM:SS)"@,
        }
    }
}

impl ValidationErrorView {
    /// The message: what was expected, the offending input, the accepted set.
    pub open spec fn message(self) -> Seq<char> {
        self.field.lead() + self.input + self.field.accepted()
    }
}

impl Clone for ValidationError {
    fn clone(&self) -> (r: ValidationError)
        ensures
            r == *self,
    {
        ValidationError { field: self.field, input: self.input.clone() }
    }
}

impl ValidationError {
    /// Records that `input` is no accepted spelling of a `field`.
    pub fn new(field: Field, input: &str) -> (e: ValidationError)
        ensures
            e@ == (ValidationErrorView { field, input: input@ }),
    {
        ValidationError { field, input: input.to_owned() }
    }

    /// The message for the user. It names the offending input and the
    /// accepted set.
    pub fn message(&self) -> (m: String)
        ensures
            m@ == self@.message(),
    {
        let lead: &str = match self.field {
            Field::Status => "Invalid status: ",
            Field::Priority => "Invalid priority: ",
            Field::DueDate => "Invalid due date: ",
        };
        let accepted: &str = match self.field {
            Field::Status => ". (Pending, InProgress, Completed)",
            Field::Priority => ". (Low, Medium, High)",
            Field::DueDate => ". (YYYY/MM/DD HH:MM:SS)",
        };
        let mut m = lead.to_owned();
        m.append(self.input.as_str());
        m.append(accepted);
        m
    }
}

} // verus!
