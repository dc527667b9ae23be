use todo_store::decode::DecodeError;
use todo_store::ident::RecordId;
use todo_store::memory::{decimal_text, MemoryEngine};
use todo_store::model::{Status, Task, Timestamp};
use todo_store::store::{
    create_query, delete_query, deleted, list_query, returned_id, set_status_query, Query,
    StoreError,
};
use todo_store::task_store::TaskStore;
use todo_store::value::Value;

const AT: Timestamp = Timestamp { secs: 1_690_000_000, nanos: 0 };

fn id(table: &str, key: &str) -> RecordId {
    RecordId { table: table.to_string(), key: key.to_string() }
}

fn text(s: &str) -> Value {
    Value::Text(s.to_string())
}

#[test]
fn statements_of_the_queries() {
    let draft = Task::new("First task", AT);
    assert_eq!(create_query(&draft).statement(), "CREATE task CONTENT $data");
    assert_eq!(set_status_query(id("task", "1"), Status::Started).statement(), "UPDATE $target MERGE $data RETURN id");
    assert_eq!(delete_query(id("task", "1")).statement(), "DELETE $target");
    assert_eq!(list_query().statement(), "SELECT * FROM task");
}

#[test]
fn bindings_of_create() {
    let draft = Task::new("First task", AT);
    let b = create_query(&draft).into_bindings();
    let data = vec![
        ("title".to_string(), text("First task")),
        ("created_at".to_string(), Value::Datetime(AT)),
        ("status".to_string(), text("new")),
    ];
    assert_eq!(b, vec![("data".to_string(), Value::Object(data))]);
}

#[test]
fn bindings_of_set_status_and_delete() {
    let b = set_status_query(id("task", "1"), Status::Completed).into_bindings();
    assert_eq!(
        b,
        vec![
            ("target".to_string(), Value::Id(id("task", "1"))),
            ("data".to_string(), Value::Object(vec![("status".to_string(), text("completed"))])),
        ]
    );
    let b = delete_query(id("task", "2")).into_bindings();
    assert_eq!(b, vec![("target".to_string(), Value::Id(id("task", "2")))]);
    assert!(list_query().into_bindings().is_empty());
}

#[test]
fn returned_id_cases() {
    let one = |fields: Vec<(String, Value)>| vec![Ok(Value::Array(vec![Value::Object(fields)]))];
    assert_eq!(returned_id(one(vec![("id".to_string(), Value::Id(id("task", "5")))])), Ok(id("task", "5")));
    assert_eq!(returned_id(one(vec![("id".to_string(), text("task:6"))])), Ok(id("task", "6")));
    assert_eq!(returned_id(one(vec![("title".to_string(), text("x"))])), Err(StoreError::NoIdentifierReturned));
    assert_eq!(returned_id(vec![Ok(Value::Array(vec![]))]), Err(StoreError::NoIdentifierReturned));
    assert_eq!(returned_id(one(vec![("id".to_string(), text("broken"))])), Err(StoreError::MalformedIdentifier));
    assert_eq!(returned_id(vec![]), Err(StoreError::Decode(DecodeError::EmptyResponse)));
    assert_eq!(
        returned_id(vec![Ok(Value::Array(vec![Value::Null]))]),
        Err(StoreError::Decode(DecodeError::RecordNotAnObject))
    );
    assert_eq!(
        returned_id(vec![Err("down".to_string())]),
        Err(StoreError::Decode(DecodeError::QueryFailed("down".to_string())))
    );
}

#[test]
fn delete_outcomes() {
    assert_eq!(deleted(vec![Ok(Value::Array(vec![]))]), Ok(()));
    assert_eq!(deleted(vec![]), Ok(()));
    assert_eq!(
        deleted(vec![Err("locked".to_string())]),
        Err(StoreError::Decode(DecodeError::QueryFailed("locked".to_string())))
    );
}

#[test]
fn keys_are_decimal() {
    assert_eq!(decimal_text(0), "0");
    assert_eq!(decimal_text(7), "7");
    assert_eq!(decimal_text(1234), "1234");
    assert_eq!(decimal_text(u64::MAX), u64::MAX.to_string());
}

#[test]
fn scenario_create_then_list() {
    let mut store = TaskStore::new();
    let id1 = store.create(&Task::new("First task", AT)).unwrap();
    let tasks = store.list().unwrap();
    assert_eq!(tasks.len(), 1);
    assert_eq!(tasks[0].task.title, "First task");
    assert_eq!(tasks[0].task.status, Status::New);
    assert_eq!(tasks[0].task.created_at, AT);
    assert_eq!(tasks[0].id, id1);
}

#[test]
fn scenario_set_status() {
    let mut store = TaskStore::new();
    let id1 = store.create(&Task::new("First task", AT)).unwrap();
    let back = store.set_status(id1.duplicate(), Status::Completed).unwrap();
    assert_eq!(back, id1);
    let tasks = store.list().unwrap();
    assert_eq!(tasks.len(), 1);
    assert_eq!(tasks[0].task.status, Status::Completed);
    assert_eq!(tasks[0].task.title, "First task");
    assert_eq!(tasks[0].id, id1);
}

#[test]
fn scenario_delete_is_idempotent() {
    let mut store = TaskStore::new();
    let id1 = store.create(&Task::new("First task", AT)).unwrap();
    assert_eq!(store.delete(&id1), Ok(()));
    assert!(store.list().unwrap().is_empty());
    assert_eq!(store.delete(&id1), Ok(()));
    assert!(store.list().unwrap().is_empty());
}

#[test]
fn scenario_set_status_of_unknown_task() {
    let mut store = TaskStore::new();
    store.create(&Task::new("First task", AT)).unwrap();
    assert_eq!(
        store.set_status(id("task", "never"), Status::Started),
        Err(StoreError::NoIdentifierReturned)
    );
    assert_eq!(store.list().unwrap()[0].task.status, Status::New);
}

#[test]
fn transitions_are_not_policed() {
    let mut store = TaskStore::new();
    let id1 = store.create(&Task::new("a", AT)).unwrap();
    store.set_status(id1.duplicate(), Status::Completed).unwrap();
    store.set_status(id1.duplicate(), Status::New).unwrap();
    assert_eq!(store.list().unwrap()[0].task.status, Status::New);
}

#[test]
fn tasks_are_listed_in_creation_order_with_distinct_ids() {
    let mut store = TaskStore::new();
    let a = store.create(&Task::new("a", AT)).unwrap();
    let b = store.create(&Task::new("b", AT)).unwrap();
    let c = store.create(&Task::new("c", AT)).unwrap();
    assert!(a != b && b != c && a != c);
    store.delete(&b).unwrap();
    let tasks = store.list().unwrap();
    let titles: Vec<&str> = tasks.iter().map(|t| t.task.title.as_str()).collect();
    assert_eq!(titles, vec!["a", "c"]);
    assert_eq!(tasks[1].id, c);
}

#[test]
fn engine_rejects_nested_values_and_taken_keys() {
    let mut e = MemoryEngine::new();
    let r = e.execute(Query::Create {
        table: "task".to_string(),
        data: vec![("tags".to_string(), Value::Array(vec![]))],
    });
    assert!(matches!(r.as_slice(), [Err(_)]));
    let r = e.execute(Query::Create { table: "bad:table".to_string(), data: vec![] });
    assert!(matches!(r.as_slice(), [Err(_)]));
    let r = e.execute(Query::Create { table: "task".to_string(), data: vec![] });
    assert_eq!(
        r,
        vec![Ok(Value::Array(vec![Value::Object(vec![("id".to_string(), Value::Id(id("task", "0")))])]))]
    );
    let r = e.execute(Query::SelectAll { table: "other".to_string() });
    assert_eq!(r, vec![Ok(Value::Array(vec![]))]);
}
