//! How a task is laid out in the table `todos`: seven columns, the
//! enumerations as their canonical text, the instants as text with an offset.

use vstd::prelude::*;
use crate::error::{DecodeError, DecodeErrorView};
use crate::time::{rfc3339_text, Timestamp, UtcOffset};
use crate::todo::{
    copy_text, lemma_priority_round_trip, lemma_status_round_trip, text_view, Priority, Status,
    Todo, TodoView,
};

verus! {

/// One row, column by column, as the engine hands it over.
#[derive(Debug, PartialEq, Eq)]
pub struct StoredRow {
    pub id: i64,
    pub name: String,
    pub text: Option<String>,
    pub status: String,
    pub created_at: String,
    pub due_date: Option<String>,
    pub priority: String,
}

/// A row as a mathematical value.
pub struct RowView {
    pub id: int,
    pub name: Seq<char>,
    pub text: Option<Seq<char>>,
    pub status: Seq<char>,
    pub created_at: Seq<char>,
    pub due_date: Option<Seq<char>>,
    pub priority: Seq<char>,
}

impl View for StoredRow {
    type V = RowView;

    open spec fn view(&self) -> RowView {
        RowView {
            id: self.id as int,
            name: self.name@,
            text: text_view(self.text),
            status: self.status@,
            created_at: self.created_at@,
            due_date: text_view(self.due_date),
            priority: self.priority@,
        }
    }
}

/// A value bound to a statement.
#[derive(Debug, PartialEq, Eq)]
pub enum SqlValue {
    Null,
    Integer(i64),
    Text(String),
}

/// A bound value as a mathematical value.
pub enum SqlValueView {
    Null,
    Integer(int),
    Text(Seq<char>),
}

impl View for SqlValue {
    type V = SqlValueView;

    open spec fn view(&self) -> SqlValueView {
        match self {
            SqlValue::Null => SqlValueView::Null,
            SqlValue::Integer(i) => SqlValueView::Integer(*i as int),
            SqlValue::Text(s) => SqlValueView::Text(s@),
        }
    }
}

/// An optional text as a bound value: absent is `NULL`.
pub open spec fn nullable(t: Option<Seq<char>>) -> SqlValueView {
    match t {
        Some(s) => SqlValueView::Text(s),
        None => SqlValueView::Null,
    }
}

impl RowView {
    /// The task that a row stands for, or the first column, in the order of
    /// the table, that cannot be read. The identifier must be one that a
    /// task can have; status and priority are read without regard to case;
    /// the instants must be ones that a task can carry.
    pub open spec fn decoded(self) -> Result<TodoView, DecodeErrorView> {
        if !(0 <= self.id <= u32::MAX) {
            Err(DecodeErrorView::Id(self.id))
        } else if Status::parsed(self.status) is None {
            Err(DecodeErrorView::Status(self.status))
        } else if Timestamp::decoded(self.created_at) is None {
            Err(DecodeErrorView::CreatedAt(self.created_at))
        } else if self.due_date is Some && Timestamp::decoded(self.due_date->0) is None {
            Err(DecodeErrorView::DueDate(self.due_date->0))
        } else if Priority::parsed(self.priority) is None {
            Err(DecodeErrorView::Priority(self.priority))
        } else {
            Ok(
                TodoView {
                    id: self.id as u32,
                    name: self.name,
                    text: self.text,
                    status: Status::parsed(self.status)->0,
                    created_at: Timestamp::decoded(self.created_at)->0,
                    due_date: match self.due_date {
                        Some(d) => Timestamp::decoded(d),
                        None => None,
                    },
                    priority: Priority::parsed(self.priority)->0,
                },
            )
        }
    }

    /// The values of an `INSERT`, in the order of its columns: name, note,
    /// status, creation time, due date, priority. The identifier is the
    /// engine's to give.
    pub open spec fn insert_values(self) -> Seq<SqlValueView> {
        seq![
            SqlValueView::Text(self.name),
            nullable(self.text),
            SqlValueView::Text(self.status),
            SqlValueView::Text(self.created_at),
            nullable(self.due_date),
            SqlValueView::Text(self.priority),
        ]
    }

    /// The values of an `UPDATE`, in the order of its columns, and last the
    /// identifier of the row: name, note, status, due date, priority,
    /// identifier. The creation time is not written again.
    pub open spec fn update_values(self) -> Seq<SqlValueView> {
        seq![
            SqlValueView::Text(self.name),
            nullable(self.text),
            SqlValueView::Text(self.status),
            nullable(self.due_date),
            SqlValueView::Text(self.priority),
            SqlValueView::Integer(self.id),
        ]
    }
}

impl TodoView {
    /// The row under which a task is stored when its creation time is
    /// written at `created_offset` and its due date at `due_offset`.
    pub open spec fn stored(self, created_offset: int, due_offset: int) -> RowView {
        RowView {
            id: self.id as int,
            name: self.name,
            text: self.text,
            status: self.status.canonical(),
            created_at: rfc3339_text(self.created_at, created_offset),
            due_date: match self.due_date {
                Some(d) => Some(rfc3339_text(d, due_offset)),
                None => None,
            },
            priority: self.priority.canonical(),
        }
    }
}

/// The views of a list of bound values.
pub open spec fn values_view(values: Seq<SqlValue>) -> Seq<SqlValueView> {
    values.map_values(|v: SqlValue| v@)
}

/// An optional text as a bound value.
fn bind_optional(t: &Option<String>) -> (v: SqlValue)
    ensures
        v@ == nullable(text_view(*t)),
{
    match t {
        Some(s) => SqlValue::Text(s.clone()),
        None => SqlValue::Null,
    }
}

impl StoredRow {
    /// Lays a task out as a row. The row reads back as the same task, field
    /// for field.
    pub fn of(todo: &Todo, created_offset: UtcOffset, due_offset: UtcOffset) -> (row: StoredRow)
        ensures
            row@ == todo@.stored(created_offset@, due_offset@),
            row@.decoded() == Ok::<TodoView, DecodeErrorView>(todo@),
    {
        let created_at = todo.created_at.to_rfc3339(created_offset);
        let due_date = match todo.due_date {
            Some(d) => Some(d.to_rfc3339(due_offset)),
            None => None,
        };
        proof {
            lemma_status_round_trip(todo.status);
            lemma_priority_round_trip(todo.priority);
        }
        StoredRow {
            id: todo.id as i64,
            name: todo.name.clone(),
            text: copy_text(&todo.text),
            status: todo.status.to_string(),
            created_at,
            due_date,
            priority: todo.priority.to_string(),
        }
    }

    /// Reads a row back as a task.
    pub fn decode(&self) -> (r: Result<Todo, DecodeError>)
        ensures
            match self@.decoded() {
                Ok(t) => r matches Ok(todo) && todo@ == t,
                Err(e) => r matches Err(err) && err@ == e,
            },
    {
        if self.id < 0 || self.id > u32::MAX as i64 {
            return Err(DecodeError::Id(self.id));
        }
        let id: u32 = self.id as u32;
        let status = match Status::from_str(self.status.as_str()) {
            Ok(s) => s,
            Err(_) => {
                return Err(DecodeError::Status(self.status.clone()));
            },
        };
        let created_at = match Timestamp::parse_rfc3339(self.created_at.as_str()) {
            Some(t) => t,
            None => {
                return Err(DecodeError::CreatedAt(self.created_at.clone()));
            },
        };
        let due_date = match &self.due_date {
            Some(d) => match Timestamp::parse_rfc3339(d.as_str()) {
                Some(t) => Some(t),
                None => {
                    return Err(DecodeError::DueDate(d.clone()));
                },
            },
            None => None,
        };
        let priority = match Priority::from_str(self.priority.as_str()) {
            Ok(p) => p,
            Err(_) => {
                return Err(DecodeError::Priority(self.priority.clone()));
            },
        };
        Ok(
            Todo {
                id,
                name: self.name.clone(),
                text: copy_text(&self.text),
                status,
                created_at,
                due_date,
                priority,
            },
        )
    }

    /// The values to bind when this row is inserted.
    pub fn insert_values(&self) -> (values: Vec<SqlValue>)
        ensures
            values_view(values@) == self@.insert_values(),
    {
        let mut values: Vec<SqlValue> = Vec::new();
        values.push(SqlValue::Text(self.name.clone()));
        values.push(bind_optional(&self.text));
        values.push(SqlValue::Text(self.status.clone()));
        values.push(SqlValue::Text(self.created_at.clone()));
        values.push(bind_optional(&self.due_date));
        values.push(SqlValue::Text(self.priority.clone()));
        assert(values_view(values@) =~= self@.insert_values());
        values
    }

    /// The values to bind when this row is written over the one with its
    /// identifier.
    pub fn update_values(&self) -> (values: Vec<SqlValue>)
        ensures
            values_view(values@) == self@.update_values(),
    {
        let mut values: Vec<SqlValue> = Vec::new();
        values.push(SqlValue::Text(self.name.clone()));
        values.push(bind_optional(&self.text));
        values.push(SqlValue::Text(self.status.clone()));
        values.push(bind_optional(&self.due_date));
        values.push(SqlValue::Text(self.priority.clone()));
        values.push(SqlValue::Integer(self.id));
        assert(values_view(values@) =~= self@.update_values());
        values
    }
}

} // verus!
