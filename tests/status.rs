use todo_store::decode::DecodeError;
use todo_store::menu::MenuItem;
use todo_store::model::{Status, Task, Timestamp};
use todo_store::store::{decode_tasks, task_from_fields, StoreError};
use todo_store::ident::RecordId;
use todo_store::value::{get_field, Value};

fn text(s: &str) -> Value {
    Value::Text(s.to_string())
}

fn fields(entries: Vec<(&str, Value)>) -> Vec<(String, Value)> {
    entries.into_iter().map(|(k, v)| (k.to_string(), v)).collect()
}

fn task_id(key: &str) -> Value {
    Value::Id(RecordId { table: "task".to_string(), key: key.to_string() })
}

const AT: Timestamp = Timestamp { secs: 1_700_000_000, nanos: 5 };

#[test]
fn status_tags() {
    assert_eq!(Status::New.tag(), "new");
    assert_eq!(Status::Started.tag(), "started");
    assert_eq!(Status::Completed.tag(), "completed");
}

#[test]
fn status_tag_round_trip() {
    for s in [Status::New, Status::Started, Status::Completed] {
        assert_eq!(Status::from_tag(&s.tag()), Some(s));
    }
    assert_eq!(Status::from_tag("done"), None);
    assert_eq!(Status::from_tag("New"), None);
    assert_eq!(Status::from_tag(""), None);
}

#[test]
fn new_task_is_new() {
    let t = Task::new("First task", AT);
    assert_eq!(t.title, "First task");
    assert_eq!(t.created_at, AT);
    assert_eq!(t.status, Status::New);
}

#[test]
fn unknown_status_tag_in_list() {
    let rec = Value::Object(fields(vec![
        ("id", task_id("1")),
        ("title", text("x")),
        ("created_at", Value::Datetime(AT)),
        ("status", text("archived")),
    ]));
    assert_eq!(
        decode_tasks(vec![Ok(Value::Array(vec![rec]))]).err(),
        Some(StoreError::UnknownStatusTag)
    );
}

#[test]
fn task_from_fields_reads_each_field() {
    let m = fields(vec![
        ("status", text("started")),
        ("title", text("write")),
        ("created_at", Value::Datetime(AT)),
        ("id", text("task:7")),
    ]);
    let t = task_from_fields(&m).ok().unwrap();
    assert_eq!(t.id, RecordId { table: "task".to_string(), key: "7".to_string() });
    assert_eq!(t.task.title, "write");
    assert_eq!(t.task.status, Status::Started);
    assert_eq!(t.task.created_at, AT);
}

#[test]
fn task_from_fields_errors() {
    let no_id = fields(vec![("title", text("x"))]);
    assert_eq!(task_from_fields(&no_id).err(), Some(StoreError::NoIdentifierReturned));
    let bad_id = fields(vec![("id", text("nokey:"))]);
    assert_eq!(task_from_fields(&bad_id).err(), Some(StoreError::MalformedIdentifier));
    let no_title = fields(vec![("id", task_id("1")), ("created_at", Value::Datetime(AT)), ("status", text("new"))]);
    assert_eq!(
        task_from_fields(&no_title).err(),
        Some(StoreError::Decode(DecodeError::UnexpectedShape))
    );
}

#[test]
fn first_field_of_a_name_wins() {
    let m = fields(vec![("a", Value::Number(1)), ("b", Value::Number(2)), ("a", Value::Number(3))]);
    assert_eq!(get_field(&m, "a"), Some(&Value::Number(1)));
    assert_eq!(get_field(&m, "b"), Some(&Value::Number(2)));
    assert_eq!(get_field(&m, "c"), None);
}

#[test]
fn menu_positions() {
    assert_eq!(MenuItem::Home.index(), 0);
    assert_eq!(MenuItem::Todo.index(), 1);
}
