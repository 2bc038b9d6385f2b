use rustodo::{CreateTodo, MemoryStore, Priority, Status, StoreError, Timestamp, Todo, UpdateTodo};

fn request(name: &str, priority: Priority) -> CreateTodo {
    CreateTodo { name: name.to_string(), text: None, due_date: None, priority }
}

fn at(secs: i64) -> Timestamp {
    Timestamp::from_secs(secs).unwrap()
}

fn only_priority(p: Priority) -> UpdateTodo {
    UpdateTodo { name: None, text: None, due_date: None, status: None, priority: Some(p) }
}

#[test]
fn memory_store_starts_empty() {
    let store = MemoryStore::new();
    assert!(store.list().is_empty());
    assert_eq!(store.get(1), Err(StoreError::NotFound));
}

#[test]
fn memory_identifiers_count_up_from_one() {
    let mut store = MemoryStore::new();
    for expected in 1..=20u32 {
        assert_eq!(store.add_at(request("t", Priority::Low), at(0)), Ok(expected));
    }
}

#[test]
fn memory_identifiers_are_not_given_again_after_delete() {
    let mut store = MemoryStore::new();
    assert_eq!(store.add(request("a", Priority::Low)), Ok(1));
    assert_eq!(store.add(request("b", Priority::Low)), Ok(2));
    assert!(store.delete(2).is_ok());
    assert!(store.delete(1).is_ok());
    assert_eq!(store.add(request("c", Priority::Low)), Ok(3));
    assert_eq!(store.list().len(), 1);
    assert_eq!(store.get(3).unwrap().name, "c");
}

#[test]
fn memory_add_makes_the_task_as_asked() {
    let mut store = MemoryStore::new();
    let due = at(1_704_067_199);
    let id = store
        .add_at(
            CreateTodo {
                name: "Write".to_string(),
                text: Some("two pages".to_string()),
                due_date: Some(due),
                priority: Priority::High,
            },
            at(1_700_000_000),
        )
        .unwrap();
    assert_eq!(
        store.get(id),
        Ok(Todo {
            id: 1,
            name: "Write".to_string(),
            text: Some("two pages".to_string()),
            status: Status::InProgress,
            created_at: at(1_700_000_000),
            due_date: Some(due),
            priority: Priority::High,
        })
    );
    let id = store.add_at(request("Read", Priority::Medium), at(1_700_000_001)).unwrap();
    let read = store.get(id).unwrap();
    assert_eq!(read.status, Status::InProgress);
    assert_eq!(read.due_date, None);
    assert_eq!(read.text, None);
}

#[test]
fn memory_add_takes_the_time_from_the_clock() {
    let mut store = MemoryStore::new();
    let before = Timestamp::now().unwrap().secs();
    let id = store.add(request("now", Priority::Low)).unwrap();
    let after = Timestamp::now().unwrap().secs();
    let made = store.get(id).unwrap().created_at.secs();
    assert!(before <= made && made <= after);
}

#[test]
fn memory_empty_patch_changes_nothing() {
    let mut store = MemoryStore::new();
    let id = store
        .add_at(
            CreateTodo {
                name: "Keep".to_string(),
                text: Some("as is".to_string()),
                due_date: Some(at(5)),
                priority: Priority::Low,
            },
            at(1),
        )
        .unwrap();
    let before = store.get(id).unwrap();
    assert_eq!(store.update(id, UpdateTodo::empty()), Ok(()));
    assert_eq!(store.get(id).unwrap(), before);
    assert_eq!(store.list(), vec![before]);
}

#[test]
fn memory_priority_patch_changes_the_priority_alone() {
    let mut store = MemoryStore::new();
    let a = store
        .add_at(
            CreateTodo {
                name: "A".to_string(),
                text: Some("note".to_string()),
                due_date: Some(at(77)),
                priority: Priority::Low,
            },
            at(10),
        )
        .unwrap();
    let b = store.add_at(request("B", Priority::Low), at(11)).unwrap();
    let before_a = store.get(a).unwrap();
    let before_b = store.get(b).unwrap();
    assert_eq!(store.update(a, only_priority(Priority::High)), Ok(()));
    assert_eq!(store.get(a).unwrap(), Todo { priority: Priority::High, ..before_a });
    assert_eq!(store.get(b).unwrap(), before_b);
}

#[test]
fn memory_patch_sets_every_named_field() {
    let mut store = MemoryStore::new();
    let id = store.add_at(request("Old", Priority::Low), at(10)).unwrap();
    let patch = UpdateTodo {
        name: Some("New".to_string()),
        text: Some("note".to_string()),
        due_date: Some(at(99)),
        status: Some(Status::Pending),
        priority: Some(Priority::Medium),
    };
    assert_eq!(store.update(id, patch), Ok(()));
    assert_eq!(
        store.get(id).unwrap(),
        Todo {
            id,
            name: "New".to_string(),
            text: Some("note".to_string()),
            status: Status::Pending,
            created_at: at(10),
            due_date: Some(at(99)),
            priority: Priority::Medium,
        }
    );
}

#[test]
fn memory_patch_cannot_clear_a_field() {
    let mut store = MemoryStore::new();
    let id = store
        .add_at(
            CreateTodo {
                name: "A".to_string(),
                text: Some("note".to_string()),
                due_date: Some(at(77)),
                priority: Priority::Low,
            },
            at(10),
        )
        .unwrap();
    let patch = UpdateTodo { name: Some("B".to_string()), ..UpdateTodo::empty() };
    assert_eq!(store.update(id, patch), Ok(()));
    let t = store.get(id).unwrap();
    assert_eq!(t.text, Some("note".to_string()));
    assert_eq!(t.due_date, Some(at(77)));
}

#[test]
fn memory_any_status_follows_any_other() {
    let mut store = MemoryStore::new();
    let id = store.add_at(request("A", Priority::Low), at(10)).unwrap();
    for s in [Status::Completed, Status::Pending, Status::InProgress, Status::Completed] {
        let patch = UpdateTodo { status: Some(s), ..UpdateTodo::empty() };
        assert_eq!(store.update(id, patch), Ok(()));
        assert_eq!(store.get(id).unwrap().status, s);
    }
}

#[test]
fn memory_delete_is_final() {
    let mut store = MemoryStore::new();
    let id = store.add_at(request("A", Priority::Low), at(10)).unwrap();
    let kept = store.add_at(request("B", Priority::High), at(11)).unwrap();
    let gone = store.delete(id).unwrap();
    assert_eq!(gone.name, "A");
    assert_eq!(gone.id, id);
    assert_eq!(store.get(id), Err(StoreError::NotFound));
    assert_eq!(store.update(id, only_priority(Priority::High)), Err(StoreError::NotFound));
    assert_eq!(store.delete(id), Err(StoreError::NotFound));
    assert_eq!(store.get(kept).unwrap().name, "B");
    store.add_at(request("C", Priority::Low), at(12)).unwrap();
    assert_eq!(store.get(id), Err(StoreError::NotFound));
}

#[test]
fn memory_missing_identifier_is_not_found_and_changes_nothing() {
    let mut store = MemoryStore::new();
    store.add_at(request("A", Priority::Low), at(10)).unwrap();
    let before = store.list();
    assert_eq!(store.get(7), Err(StoreError::NotFound));
    assert_eq!(store.get(0), Err(StoreError::NotFound));
    assert_eq!(store.update(7, only_priority(Priority::High)), Err(StoreError::NotFound));
    assert_eq!(store.delete(7), Err(StoreError::NotFound));
    assert_eq!(store.list(), before);
}

#[test]
fn memory_list_is_oldest_first() {
    let mut store = MemoryStore::new();
    for name in ["a", "b", "c", "d"] {
        store.add_at(request(name, Priority::Low), at(10)).unwrap();
    }
    store.delete(2).unwrap();
    let names: Vec<String> = store.list().into_iter().map(|t| t.name).collect();
    assert_eq!(names, vec!["a", "c", "d"]);
    let ids: Vec<u32> = store.list().into_iter().map(|t| t.id).collect();
    assert_eq!(ids, vec![1, 3, 4]);
}

#[test]
fn memory_scenario() {
    let mut store = MemoryStore::new();
    let due = at(1_704_067_199);
    let a = store
        .add_at(
            CreateTodo {
                name: "First Task".to_string(),
                text: None,
                due_date: Some(due),
                priority: Priority::High,
            },
            at(1_700_000_000),
        )
        .unwrap();
    assert_eq!(a, 1);
    let b = store.add_at(request("Second Task", Priority::Low), at(1_700_000_001)).unwrap();
    assert_eq!(b, 2);
    let task_a = store.get(1).unwrap();
    let task_b = store.get(2).unwrap();
    assert_eq!(store.list(), vec![task_a.clone(), task_b.clone()]);
    let patch = UpdateTodo { status: Some(Status::Completed), ..UpdateTodo::empty() };
    assert_eq!(store.update(1, patch), Ok(()));
    assert_eq!(store.get(1).unwrap().status, Status::Completed);
    assert_eq!(store.get(1).unwrap().priority, Priority::High);
    assert_eq!(store.delete(1).unwrap().name, "First Task");
    assert_eq!(store.list(), vec![task_b]);
}

#[test]
fn patch_applies_field_by_field() {
    let t = Todo {
        id: 9,
        name: "A".to_string(),
        text: None,
        status: Status::InProgress,
        created_at: at(1),
        due_date: None,
        priority: Priority::Low,
    };
    assert_eq!(t.clone().apply(UpdateTodo::empty()), t);
    let patched = t.clone().apply(UpdateTodo {
        text: Some("x".to_string()),
        due_date: Some(at(2)),
        ..UpdateTodo::empty()
    });
    assert_eq!(patched, Todo { text: Some("x".to_string()), due_date: Some(at(2)), ..t.clone() });
    let made = Todo::new(3, request("N", Priority::Medium), at(4));
    assert_eq!(
        made,
        Todo {
            id: 3,
            name: "N".to_string(),
            text: None,
            status: Status::InProgress,
            created_at: at(4),
            due_date: None,
            priority: Priority::Medium,
        }
    );
}
