//! The store that keeps its tasks in one table of an SQLite database.

use vstd::prelude::*;
use crate::db::{execute, open_database, query_all, query_one};
use crate::error::{DecodeError, DecodeErrorView, StoreError};
use crate::row::{values_view, RowView, SqlValue, StoredRow};
use crate::time::{to_minutes, zone_offset, Timestamp, UtcOffset, Zone};
use crate::todo::{CreateTodo, Todo, TodoView, UpdateTodo};

verus! {

/// Makes the table unless it is there. `AUTOINCREMENT` has the engine keep
/// count of the identifiers it gave, so that one freed by a deletion is not
/// given again. A table that is there already keeps the numbering it was
/// made with.
pub const CREATE_TABLE: &'static str =
    "CREATE TABLE IF NOT EXISTS todos (id INTEGER PRIMARY KEY AUTOINCREMENT, name TEXT NOT NULL, text TEXT, status TEXT NOT NULL, created_at TEXT NOT NULL, due_date TEXT, priority TEXT NOT NULL)";

/// Adds a row. The engine gives the identifier.
pub const INSERT: &'static str =
    "INSERT INTO todos (name, text, status, created_at, due_date, priority) VALUES (?, ?, ?, ?, ?, ?)";

/// Writes a row over the one with its identifier, all but the creation time.
pub const UPDATE: &'static str =
    "UPDATE todos SET name = ?, text = ?, status = ?, due_date = ?, priority = ? WHERE id = ?";

/// Reads the row with an identifier.
pub const SELECT_ONE: &'static str =
    "SELECT id, name, text, status, created_at, due_date, priority FROM todos WHERE id = ?";

/// Reads every row.
pub const SELECT_ALL: &'static str =
    "SELECT id, name, text, status, created_at, due_date, priority FROM todos";

/// Removes the row with an identifier.
pub const DELETE: &'static str = "DELETE FROM todos WHERE id = ?";

/// The row under which a store that writes in the zone of this name keeps a
/// task: each instant at the offset that the zone has at that instant,
/// brought to whole minutes.
pub open spec fn stored_in(todo: TodoView, zone: Seq<char>) -> RowView {
    todo.stored(
        to_minutes(zone_offset(zone, todo.created_at)),
        match todo.due_date {
            Some(d) => to_minutes(zone_offset(zone, d)),
            None => to_minutes(zone_offset(zone, todo.created_at)),
        },
    )
}

/// The identifier of a task whose row the engine numbered `rowid`.
pub open spec fn id_of_rowid(rowid: int) -> Option<u32> {
    if 1 <= rowid <= u32::MAX {
        Some(rowid as u32)
    } else {
        None
    }
}

/// What the engine hands over for one row: the row, or the column of it
/// that is at fault.
pub open spec fn read_view(read: Result<StoredRow, DecodeError>) -> Result<
    RowView,
    DecodeErrorView,
> {
    match read {
        Ok(row) => Ok(row@),
        Err(e) => Err(e@),
    }
}

/// The task that a row as read stands for, or why it stands for none.
pub open spec fn task_of(read: Result<RowView, DecodeErrorView>) -> Result<
    TodoView,
    DecodeErrorView,
> {
    match read {
        Ok(row) => row.decoded(),
        Err(e) => Err(e),
    }
}

/// What reading the row with the identifier `id` comes to: the task,
/// `NotFound` where no row was there, the engine's failure, or the column
/// that cannot be read. A row that carries another identifier than the one
/// asked for is no answer: its identifier is the column at fault.
pub open spec fn fetched_is(
    outcome: Result<Option<Result<StoredRow, DecodeError>>, rusqlite::Error>,
    id: u32,
    r: Result<Todo, StoreError>,
) -> bool {
    match outcome {
        Ok(Some(read)) => match task_of(read_view(read)) {
            Ok(t) => if t.id == id {
                r matches Ok(todo) && todo@ == t
            } else {
                r matches Err(StoreError::Decode(d)) && d@ == DecodeErrorView::Id(t.id as int)
            },
            Err(e) => r matches Err(StoreError::Decode(d)) && d@ == e,
        },
        Ok(None) => r == Err::<Todo, StoreError>(StoreError::NotFound),
        Err(e) => r == Err::<Todo, StoreError>(StoreError::Storage(e)),
    }
}

/// What reading all rows comes to: the tasks in the order of the rows, or
/// the error of the first row that is no task; no row is passed over.
pub open spec fn listed_is(
    rows: Seq<Result<StoredRow, DecodeError>>,
    r: Result<Vec<Todo>, StoreError>,
) -> bool {
    match r {
        Ok(todos) => {
            &&& todos@.len() == rows.len()
            &&& forall|i: int|
                0 <= i < rows.len() ==> task_of(read_view(#[trigger] rows[i])) == Ok::<
                    TodoView,
                    DecodeErrorView,
                >(todos@[i]@)
        },
        Err(StoreError::Decode(d)) => exists|i: int|
            {
                &&& 0 <= i < rows.len()
                &&& task_of(read_view(#[trigger] rows[i])) == Err::<TodoView, DecodeErrorView>(
                    d@,
                )
                &&& forall|j: int| 0 <= j < i ==> task_of(read_view(#[trigger] rows[j])) is Ok
            },
        Err(_) => false,
    }
}

/// What an update comes to, given what reading the task came to: a failed
/// reading is handed on as it is; after a reading that gave the task, the
/// update succeeds unless the engine fails.
pub open spec fn updated_is(read: Result<Todo, StoreError>, r: Result<(), StoreError>) -> bool {
    match read {
        Ok(_) => r == Ok::<(), StoreError>(()) || r matches Err(StoreError::Storage(_)),
        Err(e) => r == Err::<(), StoreError>(e),
    }
}

/// What a deletion comes to, given what reading the task came to: a failed
/// reading is handed on as it is; after a reading that gave the task, that
/// task is handed back unless the engine fails.
pub open spec fn deleted_is(read: Result<Todo, StoreError>, r: Result<Todo, StoreError>) -> bool {
    match read {
        Ok(todo) => r == Ok::<Todo, StoreError>(todo) || r matches Err(StoreError::Storage(_)),
        Err(e) => r == Err::<Todo, StoreError>(e),
    }
}

/// Turns the engine's row number into an identifier, if it is one.
pub fn given_id(rowid: i64) -> (r: Result<u32, StoreError>)
    ensures
        match id_of_rowid(rowid as int) {
            Some(id) => r == Ok::<u32, StoreError>(id),
            None => r == Err::<u32, StoreError>(StoreError::IdUnavailable),
        },
{
    if 1 <= rowid && rowid <= u32::MAX as i64 {
        Ok(rowid as u32)
    } else {
        Err(StoreError::IdUnavailable)
    }
}

/// Makes a task of what a query for the row with the identifier `id` gave.
pub fn fetched(
    outcome: Result<Option<Result<StoredRow, DecodeError>>, rusqlite::Error>,
    id: u32,
) -> (r: Result<Todo, StoreError>)
    ensures
        fetched_is(outcome, id, r),
{
    match outcome {
        Ok(Some(Ok(row))) => match row.decode() {
            Ok(todo) => if todo.id == id {
                Ok(todo)
            } else {
                Err(StoreError::Decode(DecodeError::Id(row.id)))
            },
            Err(e) => Err(StoreError::Decode(e)),
        },
        Ok(Some(Err(e))) => Err(StoreError::Decode(e)),
        Ok(None) => Err(StoreError::NotFound),
        Err(e) => Err(StoreError::Storage(e)),
    }
}

/// Makes tasks of the rows that a query for all rows gave. A row that is no
/// task fails the whole reading.
pub fn listed(rows: &Vec<Result<StoredRow, DecodeError>>) -> (r: Result<Vec<Todo>, StoreError>)
    ensures
        listed_is(rows@, r),
{
    let mut todos: Vec<Todo> = Vec::new();
    let mut i: usize = 0;
    while i < rows.len()
        invariant
            i <= rows.len(),
            todos@.len() == i,
            forall|j: int|
                0 <= j < i ==> task_of(read_view(#[trigger] rows@[j])) == Ok::<
                    TodoView,
                    DecodeErrorView,
                >(todos@[j]@),
        decreases rows.len() - i,
    {
        let decoded = match &rows[i] {
            Ok(row) => row.decode(),
            Err(e) => Err(e.clone()),
        };
        match decoded {
            Ok(todo) => {
                todos.push(todo);
            },
            Err(e) => {
                assert(task_of(read_view(rows@[i as int])) == Err::<TodoView, DecodeErrorView>(
                    e@,
                ));
                return Err(StoreError::Decode(e));
            },
        }
        i += 1;
    }
    Ok(todos)
}

/// A store whose tasks outlive the process. It holds one connection for as
/// long as it lives, and one time zone, in which it writes every instant.
pub struct TodoList {
    conn: rusqlite::Connection,
    timezone: Zone,
}

impl TodoList {
    /// The name of the time zone in which the store writes its instants.
    pub closed spec fn zone(&self) -> Seq<char> {
        self.timezone@
    }

    /// Opens the database at `db_path` and makes the table unless it is
    /// there. The store that comes of it writes in `timezone` for as long as
    /// it lives. Only the engine can fail here.
    pub fn new(timezone: Zone, db_path: &str) -> (r: Result<TodoList, StoreError>)
        ensures
            match r {
                Ok(store) => store.zone() == timezone@,
                Err(e) => e is Storage,
            },
    {
        let conn = match open_database(db_path) {
            Ok(c) => c,
            Err(e) => {
                return Err(StoreError::Storage(e));
            },
        };
        let none: Vec<SqlValue> = Vec::new();
        match execute(&conn, CREATE_TABLE, &none) {
            Ok(_) => Ok(TodoList { conn, timezone }),
            Err(e) => Err(StoreError::Storage(e)),
        }
    }

    /// The row of a task, each instant written at the offset that the
    /// store's time zone has at that instant, to the minute. The row reads
    /// back as the task.
    fn row_of(&self, todo: &Todo) -> (row: StoredRow)
        ensures
            row@ == stored_in(todo@, self.zone()),
            row@.decoded() == Ok::<TodoView, DecodeErrorView>(todo@),
    {
        let created_offset = UtcOffset::of_zone(&self.timezone, todo.created_at);
        let due_offset = match todo.due_date {
            Some(d) => UtcOffset::of_zone(&self.timezone, d),
            None => created_offset,
        };
        StoredRow::of(todo, created_offset, due_offset)
    }

    /// The values that are bound when a task made of `request` at the time
    /// `now` is inserted: those of its row, with the status `InProgress`,
    /// `now` as the creation time and the due date as asked, each instant
    /// written in the store's time zone. The engine numbers the row; the
    /// identifier 0 stands in for its number and is not among the values.
    pub fn insert_values_at(&self, request: CreateTodo, now: Timestamp) -> (values: Vec<SqlValue>)
        ensures
            values_view(values@) == stored_in(
                TodoView::created(0, request@, now@),
                self.zone(),
            ).insert_values(),
    {
        self.row_of(&Todo::new(0, request, now)).insert_values()
    }

    /// The values that are bound when the task `read` is written back after
    /// the patch: those of the row of the merged task, each instant written
    /// in the store's time zone, and last the identifier of the row.
    pub fn update_values_for(&self, read: Todo, patch: UpdateTodo) -> (values: Vec<SqlValue>)
        ensures
            values_view(values@) == stored_in(
                read@.merged(patch@),
                self.zone(),
            ).update_values(),
    {
        self.row_of(&read.apply(patch)).update_values()
    }

    /// Stores a new task made of `request` at the time `now`, with the
    /// status `InProgress`, and returns the identifier that the engine gave.
    /// What is handed to the engine is what [`TodoList::insert_values_at`]
    /// makes; what becomes of the engine's row number, [`given_id`] says.
    pub fn add_at(&self, request: CreateTodo, now: Timestamp) -> (r: Result<u32, StoreError>)
        ensures
            match r {
                Ok(id) => id >= 1,
                Err(e) => e is Storage || e is IdUnavailable,
            },
    {
        let values = self.insert_values_at(request, now);
        match execute(&self.conn, INSERT, &values) {
            Ok(_) => given_id(self.conn.last_insert_rowid()),
            Err(e) => Err(StoreError::Storage(e)),
        }
    }

    /// Stores a new task with the status `InProgress` and the present moment
    /// as its creation time, and returns the identifier that the engine gave.
    /// Where the clock shows a time that no task can carry nothing is
    /// stored.
    pub fn add(&self, create_todo: CreateTodo) -> (r: Result<u32, StoreError>)
        ensures
            match r {
                Ok(id) => id >= 1,
                Err(e) => e is ClockOutOfRange || e is Storage || e is IdUnavailable,
            },
    {
        match Timestamp::now() {
            Some(now) => self.add_at(create_todo, now),
            None => Err(StoreError::ClockOutOfRange),
        }
    }

    /// Reads the task with the identifier: what [`fetched`] makes of the
    /// engine's answer.
    pub fn get(&self, id: u32) -> (r: Result<Todo, StoreError>)
        ensures
            exists|outcome: Result<Option<Result<StoredRow, DecodeError>>, rusqlite::Error>|
                fetched_is(outcome, id, r),
            match r {
                Ok(todo) => todo.id == id,
                Err(e) => e is NotFound || e is Storage || e is Decode,
            },
    {
        let outcome = query_one(&self.conn, SELECT_ONE, id);
        let ghost answer = outcome;
        let r = fetched(outcome, id);
        assert(fetched_is(answer, id, r));
        r
    }

    /// Reads the task with the identifier and writes over its row what
    /// [`TodoList::update_values_for`] makes of the task and the patch. A
    /// reading that fails is handed on as it is:
    /// without such a task the result is `NotFound`, and nothing is written.
    /// Once the task was read, the engine alone can fail.
    pub fn update(&self, id: u32, update_todo: UpdateTodo) -> (r: Result<(), StoreError>)
        ensures
            exists|
                outcome: Result<Option<Result<StoredRow, DecodeError>>, rusqlite::Error>,
                read: Result<Todo, StoreError>,
            |
                fetched_is(outcome, id, read) && updated_is(read, r),
            r matches Err(e) ==> e is NotFound || e is Storage || e is Decode,
    {
        let outcome = query_one(&self.conn, SELECT_ONE, id);
        let ghost answer = outcome;
        let read = fetched(outcome, id);
        let ghost seen = read;
        let r = match read {
            Ok(todo) => {
                let values = self.update_values_for(todo, update_todo);
                match execute(&self.conn, UPDATE, &values) {
                    Ok(_) => Ok(()),
                    Err(e) => Err(StoreError::Storage(e)),
                }
            },
            Err(e) => Err(e),
        };
        assert(fetched_is(answer, id, seen) && updated_is(seen, r));
        r
    }

    /// Reads the task with the identifier, removes its row and hands the
    /// task back as it was read. A reading that fails is handed on as it is:
    /// without such a task the result is `NotFound`, and nothing is removed.
    /// Once the task was read, the engine alone can fail.
    pub fn delete(&self, id: u32) -> (r: Result<Todo, StoreError>)
        ensures
            exists|
                outcome: Result<Option<Result<StoredRow, DecodeError>>, rusqlite::Error>,
                read: Result<Todo, StoreError>,
            |
                fetched_is(outcome, id, read) && deleted_is(read, r),
            match r {
                Ok(todo) => todo.id == id,
                Err(e) => e is NotFound || e is Storage || e is Decode,
            },
    {
        let outcome = query_one(&self.conn, SELECT_ONE, id);
        let ghost answer = outcome;
        let read = fetched(outcome, id);
        let ghost seen = read;
        let r = match read {
            Ok(todo) => {
                let mut values: Vec<SqlValue> = Vec::new();
                values.push(SqlValue::Integer(id as i64));
                match execute(&self.conn, DELETE, &values) {
                    Ok(_) => Ok(todo),
                    Err(e) => Err(StoreError::Storage(e)),
                }
            },
            Err(e) => Err(e),
        };
        assert(fetched_is(answer, id, seen) && deleted_is(seen, r));
        r
    }

    /// Reads every task, in the order in which the engine gives the rows:
    /// what [`listed`] makes of them, unless the engine fails.
    pub fn list(&self) -> (r: Result<Vec<Todo>, StoreError>)
        ensures
            r matches Err(StoreError::Storage(_)) || exists|
                rows: Seq<Result<StoredRow, DecodeError>>,
            | listed_is(rows, r),
    {
        match query_all(&self.conn, SELECT_ALL) {
            Ok(rows) => {
                let r = listed(&rows);
                assert(listed_is(rows@, r));
                r
            },
            Err(e) => Err(StoreError::Storage(e)),
        }
    }
}

} // verus!
