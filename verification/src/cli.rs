//! From what the user typed to a request for the store.

use vstd::prelude::*;
use crate::error::{Field, ValidationError, ValidationErrorView};
use crate::time::{local_seconds, Timestamp, Zone};
use crate::todo::{
    copy_text, text_view, CreateTodo, CreateView, Priority, Status, UpdateTodo, UpdateView,
};

verus! {

/// The options of one invocation, already split from the command line.
#[derive(Debug, PartialEq, Eq)]
pub struct Args {
    /// List all tasks.
    pub list: bool,
    /// Add a task with this name.
    pub add: Option<String>,
    /// Update the task with this identifier.
    pub update: Option<u32>,
    /// Delete the task with this identifier.
    pub delete: Option<u32>,
    /// Show the task with this identifier.
    pub show: Option<u32>,
    /// A new name.
    pub name: Option<String>,
    /// A note.
    pub text: Option<String>,
    /// A due date, as `YYYY/MM/DD HH:MM:SS` in local time.
    pub due_date: Option<String>,
    /// `Low`, `Medium` or `High`.
    pub priority: Option<String>,
    /// `Pending`, `InProgress` or `Completed`.
    pub status: Option<String>,
}

impl Clone for Args {
    fn clone(&self) -> (r: Args)
        ensures
            r == *self,
    {
        Args {
            list: self.list,
            add: copy_text(&self.add),
            update: self.update,
            delete: self.delete,
            show: self.show,
            name: copy_text(&self.name),
            text: copy_text(&self.text),
            due_date: copy_text(&self.due_date),
            priority: copy_text(&self.priority),
            status: copy_text(&self.status),
        }
    }
}

/// What one invocation asks for.
#[derive(Debug, PartialEq, Eq)]
pub enum Action {
    List,
    Add(String),
    Update(u32),
    Delete(u32),
    Show(u32),
    /// Nothing that could be acted on: the usage is shown.
    Usage,
}

/// What an action is, with its text as characters.
pub enum ActionView {
    List,
    Add(Seq<char>),
    Update(u32),
    Delete(u32),
    Show(u32),
    Usage,
}

impl View for Action {
    type V = ActionView;

    open spec fn view(&self) -> ActionView {
        match self {
            Action::List => ActionView::List,
            Action::Add(name) => ActionView::Add(name@),
            Action::Update(id) => ActionView::Update(*id),
            Action::Delete(id) => ActionView::Delete(*id),
            Action::Show(id) => ActionView::Show(*id),
            Action::Usage => ActionView::Usage,
        }
    }
}

/// The form in which the user writes a due date.
pub const DATE_FORMAT: &'static str = "%Y/%m/%d %H:%M:%S";

/// The action that the options select. Listing wins, and is also what a bare
/// invocation (`word_count` of 1: the program's name alone) means; then
/// adding, updating, deleting and showing, in that order.
pub open spec fn selected(args: Args, word_count: usize) -> ActionView {
    if args.list || word_count == 1 {
        ActionView::List
    } else if args.add is Some {
        ActionView::Add(args.add->0@)
    } else if args.update is Some {
        ActionView::Update(args.update->0)
    } else if args.delete is Some {
        ActionView::Delete(args.delete->0)
    } else if args.show is Some {
        ActionView::Show(args.show->0)
    } else {
        ActionView::Usage
    }
}

/// The priority of a new task: the one asked for, `Medium` where none was.
pub open spec fn priority_or_default(text: Option<Seq<char>>) -> Option<Priority> {
    match text {
        Some(p) => Priority::parsed(p),
        None => Some(Priority::Medium),
    }
}

/// What an optional text asks for as a priority: nothing where there is no
/// text, and nothing either where the text spells no priority.
pub open spec fn asked_priority(text: Option<Seq<char>>) -> Option<Priority> {
    match text {
        Some(p) => Priority::parsed(p),
        None => None,
    }
}

/// What an optional text asks for as a status.
pub open spec fn asked_status(text: Option<Seq<char>>) -> Option<Status> {
    match text {
        Some(s) => Status::parsed(s),
        None => None,
    }
}

/// Decides what to do.
pub fn select_action(args: &Args, word_count: usize) -> (a: Action)
    ensures
        a@ == selected(*args, word_count),
{
    if args.list || word_count == 1 {
        return Action::List;
    }
    if let Some(name) = &args.add {
        return Action::Add(name.clone());
    }
    if let Some(id) = args.update {
        return Action::Update(id);
    }
    if let Some(id) = args.delete {
        return Action::Delete(id);
    }
    if let Some(id) = args.show {
        return Action::Show(id);
    }
    Action::Usage
}

/// Reads a priority as the user wrote it.
pub fn parse_priority(priority: &str) -> (r: Result<Priority, ValidationError>)
    ensures
        match Priority::parsed(priority@) {
            Some(p) => r == Ok::<Priority, ValidationError>(p),
            None => r matches Err(e) && e@ == (ValidationErrorView {
                field: Field::Priority,
                input: priority@,
            }),
        },
{
    Priority::from_str(priority)
}

/// Reads a status as the user wrote it.
pub fn parse_status(status: &str) -> (r: Result<Status, ValidationError>)
    ensures
        match Status::parsed(status@) {
            Some(s) => r == Ok::<Status, ValidationError>(s),
            None => r matches Err(e) && e@ == (ValidationErrorView {
                field: Field::Status,
                input: status@,
            }),
        },
{
    Status::from_str(status)
}

/// The instant that a due date, as the user wrote it, becomes in a zone.
pub open spec fn due_instant(text: Seq<char>, zone: Seq<char>) -> Option<int> {
    Timestamp::placed(local_seconds(text, DATE_FORMAT@), zone)
}

/// The due date that the options ask for: none where none is given, the
/// instant where the text can be read and placed, and the text again where
/// it cannot.
pub open spec fn asked_due_date(text: Option<Seq<char>>, zone: Seq<char>) -> Result<
    Option<int>,
    Seq<char>,
> {
    match text {
        None => Ok(None),
        Some(d) => match due_instant(d, zone) {
            Some(secs) => Ok(Some(secs)),
            None => Err(d),
        },
    }
}

/// The request that the options describe for a task named `name`, or the
/// first text that cannot be read: the priority before the due date.
pub open spec fn create_asked(name: Seq<char>, args: Args, zone: Seq<char>) -> Result<
    CreateView,
    ValidationErrorView,
> {
    match priority_or_default(text_view(args.priority)) {
        None => Err(ValidationErrorView { field: Field::Priority, input: args.priority->0@ }),
        Some(priority) => match asked_due_date(text_view(args.due_date), zone) {
            Err(d) => Err(ValidationErrorView { field: Field::DueDate, input: d }),
            Ok(due_date) => Ok(
                CreateView { name, text: text_view(args.text), due_date, priority },
            ),
        },
    }
}

/// The patch that the options describe, or the first text that cannot be
/// read: the priority, then the status, then the due date.
pub open spec fn update_asked(args: Args, zone: Seq<char>) -> Result<
    UpdateView,
    ValidationErrorView,
> {
    if args.priority is Some && asked_priority(text_view(args.priority)) is None {
        Err(ValidationErrorView { field: Field::Priority, input: args.priority->0@ })
    } else if args.status is Some && asked_status(text_view(args.status)) is None {
        Err(ValidationErrorView { field: Field::Status, input: args.status->0@ })
    } else {
        match asked_due_date(text_view(args.due_date), zone) {
            Err(d) => Err(ValidationErrorView { field: Field::DueDate, input: d }),
            Ok(due_date) => Ok(
                UpdateView {
                    name: text_view(args.name),
                    text: text_view(args.text),
                    due_date,
                    status: asked_status(text_view(args.status)),
                    priority: asked_priority(text_view(args.priority)),
                },
            ),
        }
    }
}

/// Reads a due date as the user wrote it, in the local time of `tz`. A text
/// that is no date, and a local time that `tz` has twice or not at all, are
/// both refused.
pub fn parse_date(date_str: &str, tz: &Zone) -> (r: Result<Timestamp, ValidationError>)
    ensures
        match due_instant(date_str@, tz@) {
            Some(secs) => r matches Ok(t) && t@ == secs,
            None => r matches Err(e) && e@ == (ValidationErrorView {
                field: Field::DueDate,
                input: date_str@,
            }),
        },
{
    match Timestamp::parse_local(date_str, DATE_FORMAT, tz) {
        Some(t) => Ok(t),
        None => Err(ValidationError::new(Field::DueDate, date_str)),
    }
}

/// The request to add a task named `name`. A priority that cannot be read is
/// reported before a due date that cannot.
pub fn create_request(name: &str, args: &Args, tz: &Zone) -> (r: Result<
    CreateTodo,
    ValidationError,
>)
    ensures
        match create_asked(name@, *args, tz@) {
            Ok(c) => r matches Ok(request) && request@ == c,
            Err(e) => r matches Err(error) && error@ == e,
        },
{
    let priority = match &args.priority {
        Some(p) => match parse_priority(p.as_str()) {
            Ok(p) => p,
            Err(e) => {
                return Err(e);
            },
        },
        None => Priority::Medium,
    };
    let due_date = match &args.due_date {
        Some(d) => match parse_date(d.as_str(), tz) {
            Ok(t) => Some(t),
            Err(e) => {
                return Err(e);
            },
        },
        None => None,
    };
    Ok(CreateTodo { name: name.to_owned(), text: copy_text(&args.text), due_date, priority })
}

/// The patch that the options describe. A priority that cannot be read is
/// reported first, then a status, then a due date.
pub fn update_request(args: &Args, tz: &Zone) -> (r: Result<UpdateTodo, ValidationError>)
    ensures
        match update_asked(*args, tz@) {
            Ok(u) => r matches Ok(patch) && patch@ == u,
            Err(e) => r matches Err(error) && error@ == e,
        },
{
    let priority = match &args.priority {
        Some(p) => match parse_priority(p.as_str()) {
            Ok(p) => Some(p),
            Err(e) => {
                return Err(e);
            },
        },
        None => None,
    };
    let status = match &args.status {
        Some(s) => match parse_status(s.as_str()) {
            Ok(s) => Some(s),
            Err(e) => {
                return Err(e);
            },
        },
        None => None,
    };
    let due_date = match &args.due_date {
        Some(d) => match parse_date(d.as_str(), tz) {
            Ok(t) => Some(t),
            Err(e) => {
                return Err(e);
            },
        },
        None => None,
    };
    Ok(
        UpdateTodo {
            name: copy_text(&args.name),
            text: copy_text(&args.text),
            due_date,
            status,
            priority,
        },
    )
}

} // verus!
