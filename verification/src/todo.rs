//! The task record and its closed enumerations.

use vstd::prelude::*;
use crate::error::{Field, ValidationError, ValidationErrorView};
use crate::text::{eq_ignore_case, lowered, same_word};
use crate::time::Timestamp;

verus! {

/// Progress of a task.
#[derive(Debug, Clone, Copy, PartialEq, Eq, Structural)]
pub enum Status {
    Pending,
    InProgress,
    Completed,
}

/// Urgency of a task.
#[derive(Debug, Clone, Copy, PartialEq, Eq, Structural)]
pub enum Priority {
    Low,
    Medium,
    High,
}

/// One task.
#[derive(Debug, PartialEq, Eq)]
pub struct Todo {
    /// Given by the store, never changed, never given again.
    pub id: u32,
    /// The title.
    pub name: String,
    /// A free note.
    pub text: Option<String>,
    pub status: Status,
    /// When the store made the task. Never changed.
    pub created_at: Timestamp,
    pub due_date: Option<Timestamp>,
    pub priority: Priority,
}

/// What a caller supplies to have a task made. The store adds the rest.
#[derive(Debug, PartialEq, Eq)]
pub struct CreateTodo {
    pub name: String,
    pub text: Option<String>,
    pub due_date: Option<Timestamp>,
    pub priority: Priority,
}

/// A sparse patch: a field that is `None` is left as it is.
#[derive(Debug, PartialEq, Eq)]
pub struct UpdateTodo {
    pub name: Option<String>,
    pub text: Option<String>,
    pub due_date: Option<Timestamp>,
    pub status: Option<Status>,
    pub priority: Option<Priority>,
}

/// A task as a mathematical value.
pub struct TodoView {
    pub id: u32,
    pub name: Seq<char>,
    pub text: Option<Seq<char>>,
    pub status: Status,
    pub created_at: int,
    pub due_date: Option<int>,
    pub priority: Priority,
}

/// A request to make a task, as a mathematical value.
pub struct CreateView {
    pub name: Seq<char>,
    pub text: Option<Seq<char>>,
    pub due_date: Option<int>,
    pub priority: Priority,
}

/// A patch as a mathematical value.
pub struct UpdateView {
    pub name: Option<Seq<char>>,
    pub text: Option<Seq<char>>,
    pub due_date: Option<int>,
    pub status: Option<Status>,
    pub priority: Option<Priority>,
}

/// The characters of an optional text.
pub open spec fn text_view(t: Option<String>) -> Option<Seq<char>> {
    match t {
        Some(s) => Some(s@),
        None => None,
    }
}

/// The seconds of an optional instant.
pub open spec fn instant_view(t: Option<Timestamp>) -> Option<int> {
    match t {
        Some(i) => Some(i@),
        None => None,
    }
}

impl View for Todo {
    type V = TodoView;

    open spec fn view(&self) -> TodoView {
        TodoView {
            id: self.id,
            name: self.name@,
            text: text_view(self.text),
            status: self.status,
            created_at: self.created_at@,
            due_date: instant_view(self.due_date),
            priority: self.priority,
        }
    }
}

impl View for CreateTodo {
    type V = CreateView;

    open spec fn view(&self) -> CreateView {
        CreateView {
            name: self.name@,
            text: text_view(self.text),
            due_date: instant_view(self.due_date),
            priority: self.priority,
        }
    }
}

impl View for UpdateTodo {
    type V = UpdateView;

    open spec fn view(&self) -> UpdateView {
        UpdateView {
            name: text_view(self.name),
            text: text_view(self.text),
            due_date: instant_view(self.due_date),
            status: self.status,
            priority: self.priority,
        }
    }
}

impl UpdateView {
    /// The patch that names no field.
    pub open spec fn is_empty(self) -> bool {
        &&& self.name is None
        &&& self.text is None
        &&& self.due_date is None
        &&& self.status is None
        &&& self.priority is None
    }
}

impl TodoView {
    /// The task that a store makes of a request: the given identifier, the
    /// request's fields, the status `InProgress`, and `now` as its creation
    /// time.
    pub open spec fn created(id: u32, request: CreateView, now: int) -> TodoView {
        TodoView {
            id,
            name: request.name,
            text: request.text,
            status: Status::InProgress,
            created_at: now,
            due_date: request.due_date,
            priority: request.priority,
        }
    }

    /// A task after a patch: each field that the patch names takes the
    /// patch's value, every other field stays. The identifier and the
    /// creation time are no part of a patch.
    pub open spec fn merged(self, patch: UpdateView) -> TodoView {
        TodoView {
            id: self.id,
            name: match patch.name {
                Some(n) => n,
                None => self.name,
            },
            text: match patch.text {
                Some(t) => Some(t),
                None => self.text,
            },
            status: match patch.status {
                Some(s) => s,
                None => self.status,
            },
            created_at: self.created_at,
            due_date: match patch.due_date {
                Some(d) => Some(d),
                None => self.due_date,
            },
            priority: match patch.priority {
                Some(p) => p,
                None => self.priority,
            },
        }
    }
}

/// A copy of an optional text.
pub fn copy_text(t: &Option<String>) -> (r: Option<String>)
    ensures
        r == *t,
{
    match t {
        Some(s) => Some(s.clone()),
        None => None,
    }
}

impl Clone for Todo {
    fn clone(&self) -> (r: Todo)
        ensures
            r == *self,
    {
        Todo {
            id: self.id,
            name: self.name.clone(),
            text: copy_text(&self.text),
            status: self.status,
            created_at: self.created_at,
            due_date: self.due_date,
            priority: self.priority,
        }
    }
}

impl Clone for CreateTodo {
    fn clone(&self) -> (r: CreateTodo)
        ensures
            r == *self,
    {
        CreateTodo {
            name: self.name.clone(),
            text: copy_text(&self.text),
            due_date: self.due_date,
            priority: self.priority,
        }
    }
}

impl Clone for UpdateTodo {
    fn clone(&self) -> (r: UpdateTodo)
        ensures
            r == *self,
    {
        UpdateTodo {
            name: copy_text(&self.name),
            text: copy_text(&self.text),
            due_date: self.due_date,
            status: self.status,
            priority: self.priority,
        }
    }
}

impl UpdateTodo {
    /// The patch that names no field.
    pub fn empty() -> (u: UpdateTodo)
        ensures
            u@.is_empty(),
    {
        UpdateTodo { name: None, text: None, due_date: None, status: None, priority: None }
    }
}

impl Todo {
    /// Makes the task that a store keeps for a request.
    pub fn new(id: u32, request: CreateTodo, now: Timestamp) -> (t: Todo)
        ensures
            t@ == TodoView::created(id, request@, now@),
    {
        Todo {
            id,
            name: request.name,
            text: request.text,
            status: Status::InProgress,
            created_at: now,
            due_date: request.due_date,
            priority: request.priority,
        }
    }

    /// Applies a patch field by field.
    pub fn apply(self, patch: UpdateTodo) -> (t: Todo)
        ensures
            t@ == self@.merged(patch@),
    {
        Todo {
            id: self.id,
            name: match patch.name {
                Some(n) => n,
                None => self.name,
            },
            text: match patch.text {
                Some(t) => Some(t),
                None => self.text,
            },
            status: match patch.status {
                Some(s) => s,
                None => self.status,
            },
            created_at: self.created_at,
            due_date: match patch.due_date {
                Some(d) => Some(d),
                None => self.due_date,
            },
            priority: match patch.priority {
                Some(p) => p,
                None => self.priority,
            },
        }
    }
}

impl Status {
    /// The one text form that is ever written for a status.
    pub open spec fn canonical(self) -> Seq<char> {
        match self {
            Status::Pending => "Pending"@,
            Status::InProgress => "InProgress"@,
            Status::Completed => "Completed"@,
        }
    }

    /// The status that a text spells, if any. Case is ignored, and
    /// `In Progress` is accepted beside `InProgress`.
    pub open spec fn parsed(s: Seq<char>) -> Option<Status> {
        if same_word(s, "pending"@) {
            Some(Status::Pending)
        } else if same_word(s, "inprogress"@) || same_word(s, "in progress"@) {
            Some(Status::InProgress)
        } else if same_word(s, "completed"@) {
            Some(Status::Completed)
        } else {
            None
        }
    }

    /// The canonical text of this status.
    pub fn to_string(&self) -> (s: String)
        ensures
            s@ == self.canonical(),
    {
        match self {
            Status::Pending => "Pending".to_owned(),
            Status::InProgress => "InProgress".to_owned(),
            Status::Completed => "Completed".to_owned(),
        }
    }

    /// Reads a status from text, or says that the text spells none.
    pub fn from_str(s: &str) -> (r: Result<Status, ValidationError>)
        ensures
            match Status::parsed(s@) {
                Some(v) => r == Ok::<Status, ValidationError>(v),
                None => r matches Err(e) && e@ == (ValidationErrorView {
                    field: Field::Status,
                    input: s@,
                }),
            },
    {
        if eq_ignore_case(s, "pending") {
            Ok(Status::Pending)
        } else if eq_ignore_case(s, "inprogress") || eq_ignore_case(s, "in progress") {
            Ok(Status::InProgress)
        } else if eq_ignore_case(s, "completed") {
            Ok(Status::Completed)
        } else {
            Err(ValidationError::new(Field::Status, s))
        }
    }
}

impl Priority {
    /// The one text form that is ever written for a priority.
    pub open spec fn canonical(self) -> Seq<char> {
        match self {
            Priority::Low => "Low"@,
            Priority::Medium => "Medium"@,
            Priority::High => "High"@,
        }
    }

    /// The priority that a text spells, if any. Case is ignored.
    pub open spec fn parsed(s: Seq<char>) -> Option<Priority> {
        if same_word(s, "low"@) {
            Some(Priority::Low)
        } else if same_word(s, "medium"@) {
            Some(Priority::Medium)
        } else if same_word(s, "high"@) {
            Some(Priority::High)
        } else {
            None
        }
    }

    /// The canonical text of this priority.
    pub fn to_string(&self) -> (s: String)
        ensures
            s@ == self.canonical(),
    {
        match self {
            Priority::Low => "Low".to_owned(),
            Priority::Medium => "Medium".to_owned(),
            Priority::High => "High".to_owned(),
        }
    }

    /// Reads a priority from text, or says that the text spells none.
    pub fn from_str(s: &str) -> (r: Result<Priority, ValidationError>)
        ensures
            match Priority::parsed(s@) {
                Some(v) => r == Ok::<Priority, ValidationError>(v),
                None => r matches Err(e) && e@ == (ValidationErrorView {
                    field: Field::Priority,
                    input: s@,
                }),
            },
    {
        if eq_ignore_case(s, "low") {
            Ok(Priority::Low)
        } else if eq_ignore_case(s, "medium") {
            Ok(Priority::Medium)
        } else if eq_ignore_case(s, "high") {
            Ok(Priority::High)
        } else {
            Err(ValidationError::new(Field::Priority, s))
        }
    }
}

/// Reading the canonical text of a status gives that status back.
pub proof fn lemma_status_round_trip(s: Status)
    ensures
        Status::parsed(s.canonical()) == Some(s),
{
    reveal_strlit("Pending");
    reveal_strlit("InProgress");
    reveal_strlit("Completed");
    reveal_strlit("pending");
    reveal_strlit("inprogress");
    reveal_strlit("in progress");
    reveal_strlit("completed");
    match s {
        Status::Pending => {
            assert(lowered("Pending"@) =~= lowered("pending"@));
        },
        Status::InProgress => {
            assert(lowered("InProgress"@).len() != lowered("pending"@).len());
            assert(lowered("InProgress"@) =~= lowered("inprogress"@));
        },
        Status::Completed => {
            assert(lowered("Completed"@)[0] != lowered("pending"@)[0]);
            assert(lowered("Completed"@).len() != lowered("inprogress"@).len());
            assert(lowered("Completed"@).len() != lowered("in progress"@).len());
            assert(lowered("Completed"@) =~= lowered("completed"@));
        },
    }
}

/// Reading the canonical text of a priority gives that priority back.
pub proof fn lemma_priority_round_trip(p: Priority)
    ensures
        Priority::parsed(p.canonical()) == Some(p),
{
    reveal_strlit("Low");
    reveal_strlit("Medium");
    reveal_strlit("High");
    reveal_strlit("low");
    reveal_strlit("medium");
    reveal_strlit("high");
    match p {
        Priority::Low => {
            assert(lowered("Low"@) =~= lowered("low"@));
        },
        Priority::Medium => {
            assert(lowered("Medium"@).len() != lowered("low"@).len());
            assert(lowered("Medium"@) =~= lowered("medium"@));
        },
        Priority::High => {
            assert(lowered("High"@).len() != lowered("low"@).len());
            assert(lowered("High"@).len() != lowered("medium"@).len());
            assert(lowered("High"@) =~= lowered("high"@));
        },
    }
}

/// A patch that names no field changes nothing.
pub proof fn lemma_empty_patch_is_identity(t: TodoView, patch: UpdateView)
    requires
        patch.is_empty(),
    ensures
        t.merged(patch) == t,
{
}

/// A patch changes the fields it names and no other; the identifier and the
/// creation time it never changes.
pub proof fn lemma_patch_changes_named_fields_only(t: TodoView, patch: UpdateView)
    ensures
        t.merged(patch).id == t.id,
        t.merged(patch).created_at == t.created_at,
        patch.name is None ==> t.merged(patch).name == t.name,
        patch.text is None ==> t.merged(patch).text == t.text,
        patch.status is None ==> t.merged(patch).status == t.status,
        patch.due_date is None ==> t.merged(patch).due_date == t.due_date,
        patch.priority is None ==> t.merged(patch).priority == t.priority,
        patch.name matches Some(n) ==> t.merged(patch).name == n,
        patch.text matches Some(x) ==> t.merged(patch).text == Some(x),
        patch.status matches Some(s) ==> t.merged(patch).status == s,
        patch.due_date matches Some(d) ==> t.merged(patch).due_date == Some(d),
        patch.priority matches Some(p) ==> t.merged(patch).priority == p,
{
}

/// A patch that names the priority alone changes the priority alone.
pub proof fn lemma_priority_patch(t: TodoView, p: Priority)
    ensures
        t.merged(
            UpdateView { name: None, text: None, due_date: None, status: None, priority: Some(p) },
        ) == (TodoView { priority: p, ..t }),
{
}

/// A task is made with the status `InProgress` and with the due date that
/// was asked for, absent where none was.
pub proof fn lemma_created_defaults(id: u32, request: CreateView, now: int)
    ensures
        TodoView::created(id, request, now).status == Status::InProgress,
        TodoView::created(id, request, now).due_date == request.due_date,
        TodoView::created(id, request, now).id == id,
        TodoView::created(id, request, now).created_at == now,
{
}

/// Two spellings that differ only in the case of ASCII letters are read
/// alike, as a status and as a priority.
pub proof fn lemma_parsing_ignores_case(a: Seq<char>, b: Seq<char>)
    requires
        same_word(a, b),
    ensures
        Status::parsed(a) == Status::parsed(b),
        Priority::parsed(a) == Priority::parsed(b),
{
}

} // verus!
