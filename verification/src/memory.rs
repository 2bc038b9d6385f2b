//! The store that keeps its tasks in memory.

use vstd::prelude::*;
use crate::error::StoreError;
use crate::time::{in_range, Timestamp};
use crate::todo::{
    CreateTodo, CreateView, Priority, Status, Todo, TodoView, UpdateTodo, UpdateView,
};

verus! {

/// What a store holds, as a mathematical value: the tasks, oldest first, and
/// the identifier that the next task will get.
pub struct StoreView {
    pub tasks: Seq<TodoView>,
    pub next_id: u32,
}

impl StoreView {
    /// Identifiers start at 1, lie below the next one to be given, and grow
    /// along the tasks; so no two tasks share one.
    pub open spec fn wf(self) -> bool {
        &&& self.next_id >= 1
        &&& forall|i: int| 0 <= i < self.tasks.len() ==> 1 <= (#[trigger] self.tasks[i]).id < self.next_id
        &&& forall|i: int, j: int|
            0 <= i < j < self.tasks.len() ==> (#[trigger] self.tasks[i]).id < (#[trigger] self.tasks[j]).id
    }

    /// The store that holds nothing yet.
    pub open spec fn empty() -> StoreView {
        StoreView { tasks: Seq::empty(), next_id: 1 }
    }

    /// Whether a task has the identifier.
    pub open spec fn holds(self, id: u32) -> bool {
        exists|i: int| 0 <= i < self.tasks.len() && (#[trigger] self.tasks[i]).id == id
    }

    /// Where the task with the identifier stands, if one has it.
    pub open spec fn position(self, id: u32) -> int {
        choose|i: int| 0 <= i < self.tasks.len() && (#[trigger] self.tasks[i]).id == id
    }

    /// The task with the identifier, if one has it.
    pub open spec fn lookup(self, id: u32) -> Option<TodoView> {
        if self.holds(id) {
            Some(self.tasks[self.position(id)])
        } else {
            None
        }
    }

    /// Whether another task can be added: an identifier is left.
    pub open spec fn has_room(self) -> bool {
        self.next_id < u32::MAX
    }

    /// The store after a task was made of `request` at the time `now`.
    pub open spec fn added(self, request: CreateView, now: int) -> StoreView {
        StoreView {
            tasks: self.tasks.push(TodoView::created(self.next_id, request, now)),
            next_id: (self.next_id + 1) as u32,
        }
    }

    /// The store after the task with the identifier took a patch. Without
    /// such a task nothing changes.
    pub open spec fn updated(self, id: u32, patch: UpdateView) -> StoreView {
        if self.holds(id) {
            let i = self.position(id);
            StoreView { tasks: self.tasks.update(i, self.tasks[i].merged(patch)), ..self }
        } else {
            self
        }
    }

    /// The store after the task with the identifier left. Without such a
    /// task nothing changes.
    pub open spec fn deleted(self, id: u32) -> StoreView {
        if self.holds(id) {
            StoreView { tasks: self.tasks.remove(self.position(id)), ..self }
        } else {
            self
        }
    }
}

/// One operation that changes a store.
pub enum Step {
    /// Add a task made of the request at the given time.
    Add(CreateView, int),
    /// Apply the patch to the task with the identifier.
    Update(u32, UpdateView),
    /// Delete the task with the identifier.
    Delete(u32),
}

impl StoreView {
    /// The store after one operation. An addition for which no identifier is
    /// left, and an update or deletion of a task that is not there, fail and
    /// change nothing.
    pub open spec fn step(self, op: Step) -> StoreView {
        match op {
            Step::Add(request, now) => if self.has_room() {
                self.added(request, now)
            } else {
                self
            },
            Step::Update(id, patch) => self.updated(id, patch),
            Step::Delete(id) => self.deleted(id),
        }
    }

    /// The store after a run of operations, the first of them first.
    pub open spec fn run(self, ops: Seq<Step>) -> StoreView
        decreases ops.len(),
    {
        if ops.len() == 0 {
            self
        } else {
            self.run(ops.drop_last()).step(ops.last())
        }
    }
}

/// Where the task that stands at `k` after the one at `i` was removed stood
/// before.
pub open spec fn before_removal(k: int, i: int) -> int {
    if k < i {
        k
    } else {
        k + 1
    }
}

/// Removing one task leaves the others as they were, in their order.
pub proof fn lemma_removed_tasks(tasks: Seq<TodoView>, i: int)
    requires
        0 <= i < tasks.len(),
    ensures
        tasks.remove(i).len() == tasks.len() - 1,
        forall|k: int|
            0 <= k < tasks.len() - 1 ==> (#[trigger] tasks.remove(i)[k]) == tasks[before_removal(
                k,
                i,
            )],
{
}

/// In a well-formed store a task is found where it stands.
pub proof fn lemma_position(s: StoreView, i: int)
    requires
        s.wf(),
        0 <= i < s.tasks.len(),
    ensures
        s.holds(s.tasks[i].id),
        s.position(s.tasks[i].id) == i,
        s.lookup(s.tasks[i].id) == Some(s.tasks[i]),
{
    let id = s.tasks[i].id;
    let j = s.position(id);
    assert(0 <= j < s.tasks.len() && s.tasks[j].id == id);
    if j < i {
        assert(s.tasks[j].id < s.tasks[i].id);
    } else if i < j {
        assert(s.tasks[i].id < s.tasks[j].id);
    }
}

/// Every operation leaves a well-formed store well-formed, and none lets the
/// counter fall: updates and deletions leave it, a successful addition moves
/// it on by one.
pub proof fn lemma_step_keeps_wf(s: StoreView, op: Step)
    requires
        s.wf(),
    ensures
        s.step(op).wf(),
        s.step(op).next_id >= s.next_id,
        op is Add && s.has_room() ==> s.step(op).next_id == s.next_id + 1,
        !(op is Add) ==> s.step(op).next_id == s.next_id,
{
    match op {
        Step::Add(request, now) => {},
        Step::Update(id, patch) => {
            if s.holds(id) {
                let t = s.updated(id, patch);
                assert forall|k: int| 0 <= k < t.tasks.len() implies (#[trigger] t.tasks[k]).id
                    == s.tasks[k].id by {}
            }
        },
        Step::Delete(id) => {
            if s.holds(id) {
                lemma_removed_tasks(s.tasks, s.position(id));
            }
        },
    }
}

/// A run of operations leaves a well-formed store well-formed and never
/// lets the counter fall.
pub proof fn lemma_run_keeps_wf(s: StoreView, ops: Seq<Step>)
    requires
        s.wf(),
    ensures
        s.run(ops).wf(),
        s.run(ops).next_id >= s.next_id,
    decreases ops.len(),
{
    if ops.len() > 0 {
        lemma_run_keeps_wf(s, ops.drop_last());
        lemma_step_keeps_wf(s.run(ops.drop_last()), ops.last());
    }
}

/// The counter after a longer run is no smaller than after a shorter one.
pub proof fn lemma_counter_grows(s: StoreView, ops: Seq<Step>, i: int, j: int)
    requires
        s.wf(),
        0 <= i <= j <= ops.len(),
    ensures
        s.run(ops.take(i)).wf(),
        s.run(ops.take(i)).next_id <= s.run(ops.take(j)).next_id,
    decreases j - i,
{
    lemma_run_keeps_wf(s, ops.take(i));
    if i < j {
        lemma_counter_grows(s, ops, i, j - 1);
        lemma_run_keeps_wf(s, ops.take(j - 1));
        assert(ops.take(j).drop_last() =~= ops.take(j - 1));
        lemma_step_keeps_wf(s.run(ops.take(j - 1)), ops.take(j).last());
    }
}

/// Identifiers are never given twice. In any run of operations, whatever
/// else happens in between, two additions that succeed give different
/// identifiers, the later one the greater: an addition gives the counter's
/// value as it stands when the addition begins.
pub proof fn lemma_identifiers_increase(s: StoreView, ops: Seq<Step>, i: int, j: int)
    requires
        s.wf(),
        0 <= i < j < ops.len(),
        ops[i] is Add,
        ops[j] is Add,
        s.run(ops.take(i)).has_room(),
    ensures
        s.run(ops.take(i)).next_id < s.run(ops.take(j)).next_id,
{
    lemma_run_keeps_wf(s, ops.take(i));
    assert(ops.take(i + 1).drop_last() =~= ops.take(i));
    assert(ops.take(i + 1).last() == ops[i]);
    lemma_step_keeps_wf(s.run(ops.take(i)), ops[i]);
    lemma_counter_grows(s, ops, i + 1, j);
}

/// A patch that names no field leaves the whole store as it was.
pub proof fn lemma_empty_patch_changes_nothing(s: StoreView, id: u32, patch: UpdateView)
    requires
        patch.is_empty(),
    ensures
        s.updated(id, patch) == s,
{
    if s.holds(id) {
        let i = s.position(id);
        assert(s.tasks[i].merged(patch) == s.tasks[i]);
        assert(s.tasks.update(i, s.tasks[i].merged(patch)) =~= s.tasks);
    }
}

/// An update changes the one task it names, as the patch says, and no
/// other: the same tasks are there afterwards, and the counter stands.
pub proof fn lemma_update_changes_one_task(s: StoreView, id: u32, patch: UpdateView, other: u32)
    requires
        s.wf(),
        s.holds(id),
    ensures
        s.updated(id, patch).lookup(id) == Some(s.lookup(id)->0.merged(patch)),
        other != id ==> s.updated(id, patch).lookup(other) == s.lookup(other),
        s.updated(id, patch).tasks.len() == s.tasks.len(),
        s.updated(id, patch).next_id == s.next_id,
{
    let i = s.position(id);
    let t = s.updated(id, patch);
    lemma_step_keeps_wf(s, Step::Update(id, patch));
    assert(t.tasks[i].id == id);
    lemma_position(t, i);
    if other != id {
        if s.holds(other) {
            let k = s.position(other);
            assert(t.tasks[k] == s.tasks[k]);
            lemma_position(t, k);
        } else if t.holds(other) {
            assert(s.tasks[t.position(other)].id == other);
        }
    }
}

/// An update that names the priority alone changes the priority of that
/// task alone: its name, note, status, due date and creation time stay.
pub proof fn lemma_priority_update(s: StoreView, id: u32, p: Priority)
    requires
        s.wf(),
        s.holds(id),
    ensures
        s.updated(
            id,
            UpdateView { name: None, text: None, due_date: None, status: None, priority: Some(p) },
        ).lookup(id) == Some(TodoView { priority: p, ..s.lookup(id)->0 }),
{
    let patch = UpdateView {
        name: None,
        text: None,
        due_date: None,
        status: None,
        priority: Some(p),
    };
    lemma_update_changes_one_task(s, id, patch, id);
}

/// A task that was added is there under the identifier it was given, with
/// the status `InProgress` and the due date that was asked for; the tasks
/// that were there before are untouched.
pub proof fn lemma_added_task(s: StoreView, request: CreateView, now: int, other: u32)
    requires
        s.wf(),
        s.has_room(),
    ensures
        s.added(request, now).lookup(s.next_id) == Some(
            TodoView::created(s.next_id, request, now),
        ),
        s.added(request, now).lookup(s.next_id)->0.status == Status::InProgress,
        s.added(request, now).lookup(s.next_id)->0.due_date == request.due_date,
        !s.holds(s.next_id),
        other != s.next_id ==> s.added(request, now).lookup(other) == s.lookup(other),
{
    let t = s.added(request, now);
    lemma_step_keeps_wf(s, Step::Add(request, now));
    let n = s.tasks.len() as int;
    assert(t.tasks[n].id == s.next_id);
    lemma_position(t, n);
    if other != s.next_id {
        if s.holds(other) {
            let k = s.position(other);
            assert(t.tasks[k] == s.tasks[k]);
            lemma_position(t, k);
        } else if t.holds(other) {
            assert(s.tasks[t.position(other)].id == other);
        }
    }
}

/// A deletion removes the one task it names and no other.
pub proof fn lemma_delete_removes_one_task(s: StoreView, id: u32, other: u32)
    requires
        s.wf(),
        s.holds(id),
    ensures
        s.deleted(id).lookup(id) is None,
        other != id ==> s.deleted(id).lookup(other) == s.lookup(other),
        s.deleted(id).tasks.len() == s.tasks.len() - 1,
{
    let i = s.position(id);
    let t = s.deleted(id);
    lemma_step_keeps_wf(s, Step::Delete(id));
    lemma_removed_tasks(s.tasks, i);
    if t.holds(id) {
        let k = before_removal(t.position(id), i);
        assert(s.tasks[k].id == id);
        lemma_position(s, k);
    }
    if other != id {
        if s.holds(other) {
            let k = s.position(other);
            let k1 = if k < i { k } else { k - 1 };
            assert(t.tasks[k1] == s.tasks[k]);
            lemma_position(t, k1);
        } else if t.holds(other) {
            assert(s.tasks[before_removal(t.position(other), i)].id == other);
        }
    }
}

/// Deletion is final: once a task is deleted, no run of operations brings
/// its identifier back, so reading and updating it fail from then on.
pub proof fn lemma_deleted_stays_gone(s: StoreView, id: u32, ops: Seq<Step>)
    requires
        s.wf(),
        s.holds(id),
    ensures
        !s.deleted(id).run(ops).holds(id),
        s.deleted(id).run(ops).lookup(id) is None,
        id < s.deleted(id).run(ops).next_id,
    decreases ops.len(),
{
    let d = s.deleted(id);
    lemma_step_keeps_wf(s, Step::Delete(id));
    lemma_position(s, s.position(id));
    if ops.len() == 0 {
        lemma_delete_removes_one_task(s, id, id);
    } else {
        lemma_deleted_stays_gone(s, id, ops.drop_last());
        let before = d.run(ops.drop_last());
        lemma_run_keeps_wf(d, ops.drop_last());
        match ops.last() {
            Step::Add(request, now) => {
                if before.has_room() {
                    lemma_added_task(before, request, now, id);
                }
            },
            Step::Update(other, patch) => {
                if before.holds(other) {
                    lemma_update_changes_one_task(before, other, patch, id);
                }
            },
            Step::Delete(other) => {
                if before.holds(other) {
                    lemma_delete_removes_one_task(before, other, id);
                }
            },
        }
    }
}

/// A store that lives as long as the process: a list of tasks and a counter.
pub struct MemoryStore {
    todos: Vec<Todo>,
    next_id: u32,
}

impl View for MemoryStore {
    type V = StoreView;

    closed spec fn view(&self) -> StoreView {
        StoreView { tasks: self.todos@.map_values(|t: Todo| t@), next_id: self.next_id }
    }
}

impl MemoryStore {
    #[verifier::type_invariant]
    spec fn valid(self) -> bool {
        self@.wf()
    }

    /// An empty store. The first task will get the identifier 1.
    pub fn new() -> (s: MemoryStore)
        ensures
            s@ == StoreView::empty(),
            s@.wf(),
    {
        let s = MemoryStore { todos: Vec::new(), next_id: 1 };
        assert(s@.tasks =~= Seq::empty());
        s
    }

    /// Where the task with the identifier stands.
    fn find(&self, id: u32) -> (r: Option<usize>)
        ensures
            self@.wf(),
            match r {
                Some(i) => self@.holds(id) && i == self@.position(id) && i < self.todos.len(),
                None => !self@.holds(id),
            },
    {
        proof {
            use_type_invariant(self);
        }
        let mut i: usize = 0;
        while i < self.todos.len()
            invariant
                i <= self.todos.len(),
                self@.wf(),
                forall|j: int| 0 <= j < i ==> (#[trigger] self@.tasks[j]).id != id,
            decreases self.todos.len() - i,
        {
            if self.todos[i].id == id {
                assert(self@.tasks[i as int].id == id);
                return Some(i);
            }
            i += 1;
        }
        None
    }

    /// Takes the list of tasks out, to be changed and put back by
    /// [`MemoryStore::put`]. An empty list stays behind, with which the
    /// store is as valid as any.
    fn take(&mut self) -> (todos: Vec<Todo>)
        ensures
            todos == old(self).todos,
            final(self).todos@.len() == 0,
            final(self).next_id == old(self).next_id,
    {
        proof {
            use_type_invariant(&*self);
        }
        let mut todos: Vec<Todo> = Vec::new();
        core::mem::swap(&mut self.todos, &mut todos);
        todos
    }

    /// Puts a list of tasks in the place of the one that is there.
    fn put(&mut self, todos: Vec<Todo>)
        requires
            (StoreView {
                tasks: todos@.map_values(|t: Todo| t@),
                next_id: old(self).next_id,
            }).wf(),
        ensures
            final(self).todos == todos,
            final(self).next_id == old(self).next_id,
    {
        let mut todos = todos;
        core::mem::swap(&mut self.todos, &mut todos);
    }

    /// Adds a task made of `request` at the time `now`, and returns its
    /// identifier: the next of the counter, which then moves on. Where the
    /// counter has come to its end nothing is added.
    pub fn add_at(&mut self, request: CreateTodo, now: Timestamp) -> (r: Result<u32, StoreError>)
        ensures
            old(self)@.wf(),
            final(self)@.wf(),
            old(self)@.has_room() ==> r == Ok::<u32, StoreError>(old(self)@.next_id)
                && final(self)@ == old(self)@.added(request@, now@),
            !old(self)@.has_room() ==> r == Err::<u32, StoreError>(StoreError::IdUnavailable)
                && final(self)@ == old(self)@,
    {
        proof {
            use_type_invariant(&*self);
        }
        if self.next_id == u32::MAX {
            return Err(StoreError::IdUnavailable);
        }
        let id: u32 = self.next_id;
        let ghost before = self@;
        let mut todos = self.take();
        todos.push(Todo::new(id, request, now));
        self.next_id = id + 1;
        assert(todos@.map_values(|t: Todo| t@) =~= before.tasks.push(
            TodoView::created(id, request@, now@),
        ));
        self.put(todos);
        Ok(id)
    }

    /// Adds a task made of `request` now, by the system clock.
    pub fn add(&mut self, request: CreateTodo) -> (r: Result<u32, StoreError>)
        ensures
            old(self)@.wf(),
            final(self)@.wf(),
            match r {
                Ok(id) => {
                    &&& old(self)@.has_room()
                    &&& id == old(self)@.next_id
                    &&& exists|now: int|
                        #[trigger] in_range(now)
                            && final(self)@ == old(self)@.added(request@, now)
                },
                Err(e) => {
                    &&& final(self)@ == old(self)@
                    &&& e == StoreError::ClockOutOfRange || (e == StoreError::IdUnavailable
                        && !old(self)@.has_room())
                },
            },
    {
        proof {
            use_type_invariant(&*self);
        }
        match Timestamp::now() {
            Some(now) => {
                let secs: i64 = now.secs();
                assert(in_range(secs as int));
                self.add_at(request, now)
            },
            None => Err(StoreError::ClockOutOfRange),
        }
    }

    /// The task with the identifier.
    pub fn get(&self, id: u32) -> (r: Result<Todo, StoreError>)
        ensures
            self@.wf(),
            match self@.lookup(id) {
                Some(t) => r matches Ok(found) && found@ == t,
                None => r == Err::<Todo, StoreError>(StoreError::NotFound),
            },
    {
        match self.find(id) {
            Some(i) => Ok(self.todos[i].clone()),
            None => Err(StoreError::NotFound),
        }
    }

    /// Applies a patch to the task with the identifier.
    pub fn update(&mut self, id: u32, patch: UpdateTodo) -> (r: Result<(), StoreError>)
        ensures
            old(self)@.wf(),
            final(self)@.wf(),
            final(self)@ == old(self)@.updated(id, patch@),
            old(self)@.holds(id) ==> r == Ok::<(), StoreError>(()),
            !old(self)@.holds(id) ==> r == Err::<(), StoreError>(StoreError::NotFound),
    {
        match self.find(id) {
            Some(i) => {
                let ghost before = self@;
                let patched = self.todos[i].clone().apply(patch);
                let mut todos = self.take();
                todos.set(i, patched);
                assert(todos@.map_values(|t: Todo| t@) =~= before.tasks.update(
                    i as int,
                    before.tasks[i as int].merged(patch@),
                ));
                proof {
                    lemma_step_keeps_wf(before, Step::Update(id, patch@));
                }
                self.put(todos);
                Ok(())
            },
            None => Err(StoreError::NotFound),
        }
    }

    /// Removes the task with the identifier and hands it back.
    pub fn delete(&mut self, id: u32) -> (r: Result<Todo, StoreError>)
        ensures
            old(self)@.wf(),
            final(self)@.wf(),
            final(self)@ == old(self)@.deleted(id),
            match old(self)@.lookup(id) {
                Some(t) => r matches Ok(gone) && gone@ == t,
                None => r == Err::<Todo, StoreError>(StoreError::NotFound),
            },
    {
        match self.find(id) {
            Some(i) => {
                let ghost before = self@;
                let mut todos = self.take();
                let gone = todos.remove(i);
                assert(todos@.map_values(|t: Todo| t@) =~= before.tasks.remove(i as int));
                proof {
                    lemma_step_keeps_wf(before, Step::Delete(id));
                }
                self.put(todos);
                Ok(gone)
            },
            None => Err(StoreError::NotFound),
        }
    }

    /// All tasks, oldest first.
    pub fn list(&self) -> (r: Vec<Todo>)
        ensures
            self@.wf(),
            r@.map_values(|t: Todo| t@) == self@.tasks,
    {
        proof {
            use_type_invariant(self);
        }
        let mut out: Vec<Todo> = Vec::new();
        let mut i: usize = 0;
        while i < self.todos.len()
            invariant
                i <= self.todos.len(),
                out@.len() == i,
                forall|j: int| 0 <= j < i ==> out@[j]@ == self.todos@[j]@,
            decreases self.todos.len() - i,
        {
            out.push(self.todos[i].clone());
            i += 1;
        }
        assert(out@.map_values(|t: Todo| t@) =~= self@.tasks);
        out
    }
}

} // verus!
