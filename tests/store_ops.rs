use tauri_app_lib::{AppData, AppError, AppState, Client, Task, TaskPriority};

fn empty_store() -> AppState {
    AppState::new("/tmp/store/data.json".to_string(), None)
}

fn s(x: &str) -> String {
    x.to_string()
}

#[test]
fn create_then_list_client() {
    let mut st = empty_store();
    let c = st.add_client(s("Acme"), s("demo"));
    let listed = st.get_clients();
    assert_eq!(listed.len(), 1);
    assert_eq!(listed[0].id, c.id);
    assert_eq!(listed[0].name, "Acme");
    assert_eq!(listed[0].description, "demo");
}

#[test]
fn fresh_ids_are_uuids_and_distinct() {
    let mut st = empty_store();
    let a = st.add_client(s("a"), s(""));
    let b = st.add_client(s("b"), s(""));
    assert_eq!(a.id.len(), 36);
    assert_ne!(a.id, b.id);
    assert_ne!(a.id, "a");
    assert_eq!(st.get_clients().len(), 2);
}

#[test]
fn task_for_missing_client_is_listed() {
    let mut st = empty_store();
    let t = st.add_task(s("no-such-client"), s("t"), s("d"), TaskPriority::High);
    assert!(!t.completed);
    assert_eq!(t.priority, TaskPriority::High);
    let listed = st.get_tasks_by_client(s("no-such-client"));
    assert_eq!(listed.len(), 1);
    assert_eq!(listed[0].id, t.id);
    assert!(st.get_tasks_by_client(s("other")).is_empty());
}

#[test]
fn toggle_twice_restores() {
    let mut st = empty_store();
    let t = st.add_task(s("c"), s("t"), s(""), TaskPriority::Low);
    let once = st.toggle_task(t.id.clone()).unwrap();
    assert!(once.completed);
    let twice = st.toggle_task(t.id.clone()).unwrap();
    assert!(!twice.completed);
    assert_eq!(twice.title, "t");
}

#[test]
fn toggle_absent_is_not_found() {
    let mut st = empty_store();
    assert!(matches!(st.toggle_task(s("missing")), Err(AppError::NotFound)));
}

#[test]
fn delete_removes_task() {
    let mut st = empty_store();
    let t = st.add_task(s("c"), s("t"), s(""), TaskPriority::Medium);
    let u = st.add_task(s("c"), s("u"), s(""), TaskPriority::Medium);
    assert!(st.delete_task(t.id.clone()).is_ok());
    let listed = st.get_tasks_by_client(s("c"));
    assert_eq!(listed.len(), 1);
    assert_eq!(listed[0].id, u.id);
    assert!(matches!(st.delete_task(t.id.clone()), Err(AppError::NotFound)));
}

#[test]
fn delete_absent_is_not_found() {
    let mut st = empty_store();
    assert!(matches!(st.delete_task(s("missing")), Err(AppError::NotFound)));
}

#[test]
fn create_with_same_id_replaces() {
    let mut st = empty_store();
    st.create_task(s("t1"), s("2024-01-01T00:00:00+00:00"), s("c"), s("a"), s(""), TaskPriority::Low);
    let t = st.create_task(s("t1"), s("2024-01-02T00:00:00+00:00"), s("c"), s("b"), s(""), TaskPriority::High);
    assert_eq!(t.title, "b");
    let listed = st.get_tasks_by_client(s("c"));
    assert_eq!(listed.len(), 1);
    assert_eq!(listed[0].title, "b");
    assert_eq!(listed[0].created_at, "2024-01-02T00:00:00+00:00");
    st.create_client(s("k"), s("one"), s(""));
    st.create_client(s("k"), s("two"), s(""));
    let cs = st.get_clients();
    assert_eq!(cs.len(), 1);
    assert_eq!(cs[0].name, "two");
}

#[test]
fn restore_reproduces_aggregate() {
    let mut st = empty_store();
    let c = st.add_client(s("Acme"), s("demo"));
    let t = st.add_task(c.id.clone(), s("x"), s("y"), TaskPriority::Low);
    st.toggle_task(t.id.clone()).unwrap();
    let saved = st.read();
    let restored = AppData::from_parts(saved.task_list(), saved.client_list());
    let st2 = AppState::new(s("/tmp/store/data.json"), Some(restored));
    let tasks: Vec<Task> = st2.get_tasks_by_client(c.id.clone());
    assert_eq!(tasks.len(), 1);
    assert_eq!(tasks[0].id, t.id);
    assert!(tasks[0].completed);
    assert_eq!(tasks[0].created_at, t.created_at);
    let clients: Vec<Client> = st2.get_clients();
    assert_eq!(clients.len(), 1);
    assert_eq!(clients[0].name, "Acme");
}

#[test]
fn from_parts_later_entry_wins() {
    let a = Client { id: s("k"), name: s("first"), description: s("") };
    let b = Client { id: s("k"), name: s("second"), description: s("") };
    let d = AppData::from_parts(Vec::new(), vec![a, b]);
    let cs = d.client_list();
    assert_eq!(cs.len(), 1);
    assert_eq!(cs[0].name, "second");
    assert!(d.task_list().is_empty());
}

#[test]
fn start_without_stored_data_is_empty() {
    let st = empty_store();
    assert!(st.get_clients().is_empty());
    assert!(st.read().task_list().is_empty());
    assert_eq!(st.data_file(), "/tmp/store/data.json");
}

#[test]
fn acme_scenario() {
    let mut st = empty_store();
    let c = st.add_client(s("Acme"), s("demo"));
    let t = st.add_task(c.id.clone(), s("Write spec"), s(""), TaskPriority::Medium);
    assert!(!t.completed);
    assert!(chrono::DateTime::parse_from_rfc3339(&t.created_at).is_ok());
    let t2 = st.toggle_task(t.id.clone()).unwrap();
    assert!(t2.completed);
    assert!(st.delete_task(t.id.clone()).is_ok());
    assert!(st.get_tasks_by_client(c.id.clone()).is_empty());
}

#[test]
fn error_messages() {
    assert_eq!(AppError::IoError(s("disk full")).to_string(), "IO Error: disk full");
    assert_eq!(AppError::JsonError(s("bad")).to_string(), "JSON Error: bad");
    assert_eq!(AppError::LockError(s("poisoned")).to_string(), "Lock Error: poisoned");
    assert_eq!(AppError::NotFound.to_string(), "Task not found");
}
