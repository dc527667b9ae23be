//! The task store's operations as queries, and what their responses mean.
use vstd::prelude::*;
use crate::decode::{decode_records, record_of, DecodeError};
use crate::ident::{parse, parse_spec, RecordId};
use crate::model::{status_of_tag, status_tag, Status, StoredTask, Task, TaskView};
use crate::value::{field, get_field, Value};

verus! {

/// Why a store operation failed.
#[derive(Debug, Clone, PartialEq, Eq)]
pub enum StoreError {
    /// The response could not be read as records.
    Decode(DecodeError),
    /// The statement ran but handed back no record identifier.
    NoIdentifierReturned,
    /// A stored status is none of the known tags.
    UnknownStatusTag,
    /// A record identifier could not be read.
    MalformedIdentifier,
}

/// The table that holds the tasks.
pub open spec fn task_table() -> Seq<char> {
    seq!['t', 'a', 's', 'k']
}

/// A statement for the datastore, with the values bound to its variables.
pub enum Query {
    /// `CREATE <table> CONTENT $data`
    Create { table: String, data: Vec<(String, Value)> },
    /// `UPDATE $target MERGE $data RETURN id`
    Merge { target: RecordId, data: Vec<(String, Value)> },
    /// `DELETE $target`
    Delete { target: RecordId },
    /// `SELECT * FROM <table>`
    SelectAll { table: String },
}

/// The statement text of a query.
pub open spec fn statement_spec(q: Query) -> Seq<char> {
    match q {
        Query::Create { table, .. } => "CREATE "@ + table@ + " CONTENT $data"@,
        Query::Merge { .. } => "UPDATE $target MERGE $data RETURN id"@,
        Query::Delete { .. } => "DELETE $target"@,
        Query::SelectAll { table } => "SELECT * FROM "@ + table@,
    }
}

/// `m` is the one-field map `{ status: <tag of s> }`.
pub open spec fn is_status_data(m: Seq<(String, Value)>, s: Status) -> bool {
    &&& m.len() == 1
    &&& m[0].0@ == "status"@
    &&& m[0].1 matches Value::Text(t) && t@ == status_tag(s)
}

/// `m` is the map `{ title, created_at, status }` of a draft task.
pub open spec fn is_task_data(m: Seq<(String, Value)>, t: Task) -> bool {
    &&& m.len() == 3
    &&& m[0].0@ == "title"@
    &&& m[0].1 matches Value::Text(x) && x@ == t.title@
    &&& m[1].0@ == "created_at"@
    &&& m[1].1 == Value::Datetime(t.created_at)
    &&& m[2].0@ == "status"@
    &&& m[2].1 matches Value::Text(x) && x@ == status_tag(t.status)
}

impl Query {
    /// The statement text, in the datastore's query language.
    pub fn statement(&self) -> (r: String)
        ensures
            r@ == statement_spec(*self),
    {
        match self {
            Query::Create { table, .. } => {
                let mut r = String::from_str("CREATE ");
                r.append(table.as_str());
                r.append(" CONTENT $data");
                r
            },
            Query::Merge { .. } => String::from_str("UPDATE $target MERGE $data RETURN id"),
            Query::Delete { .. } => String::from_str("DELETE $target"),
            Query::SelectAll { table } => {
                let mut r = String::from_str("SELECT * FROM ");
                r.append(table.as_str());
                r
            },
        }
    }

    /// The values bound to the statement's variables, by variable name.
    pub fn into_bindings(self) -> (r: Vec<(String, Value)>)
        ensures
            match self {
                Query::Create { data, .. } => r@.len() == 1 && r@[0].0@ == "data"@ && r@[0].1
                    == Value::Object(data),
                Query::Merge { target, data } => r@.len() == 2 && r@[0].0@ == "target"@
                    && r@[0].1 == Value::Id(target) && r@[1].0@ == "data"@ && r@[1].1
                    == Value::Object(data),
                Query::Delete { target } => r@.len() == 1 && r@[0].0@ == "target"@ && r@[0].1
                    == Value::Id(target),
                Query::SelectAll { .. } => r@.len() == 0,
            },
    {
        let mut r: Vec<(String, Value)> = Vec::new();
        match self {
            Query::Create { data, .. } => {
                r.push((String::from_str("data"), Value::Object(data)));
            },
            Query::Merge { target, data } => {
                r.push((String::from_str("target"), Value::Id(target)));
                r.push((String::from_str("data"), Value::Object(data)));
            },
            Query::Delete { target } => {
                r.push((String::from_str("target"), Value::Id(target)));
            },
            Query::SelectAll { .. } => {},
        }
        r
    }
}

fn table_name() -> (r: String)
    ensures
        r@ == task_table(),
{
    proof {
        reveal_strlit("task");
    }
    let r = String::from_str("task");
    assert(r@ =~= task_table());
    r
}

fn status_data(s: Status) -> (r: Vec<(String, Value)>)
    ensures
        is_status_data(r@, s),
{
    let mut r: Vec<(String, Value)> = Vec::new();
    r.push((String::from_str("status"), Value::Text(s.tag())));
    r
}

/// The query that stores a draft task.
pub fn create_query(draft: &Task) -> (r: Query)
    requires
        draft.wf(),
    ensures
        r matches Query::Create { table, data } && table@ == task_table() && is_task_data(
            data@,
            *draft,
        ),
{
    let mut data: Vec<(String, Value)> = Vec::new();
    data.push((String::from_str("title"), Value::Text(draft.title.clone())));
    data.push((String::from_str("created_at"), Value::Datetime(draft.created_at)));
    data.push((String::from_str("status"), Value::Text(draft.status.tag())));
    Query::Create { table: table_name(), data }
}

/// The query that sets the status of the task under `id`, and nothing else.
pub fn set_status_query(id: RecordId, status: Status) -> (r: Query)
    ensures
        r matches Query::Merge { target, data } && target == id && is_status_data(data@, status),
{
    Query::Merge { target: id, data: status_data(status) }
}

/// The query that deletes the task under `id`.
pub fn delete_query(id: RecordId) -> (r: Query)
    ensures
        r == (Query::Delete { target: id }),
{
    Query::Delete { target: id }
}

/// The query that selects every task.
pub fn list_query() -> (r: Query)
    ensures
        r matches Query::SelectAll { table } && table@ == task_table(),
{
    Query::SelectAll { table: table_name() }
}

/// What an `id` field yields: an identifier value as it is, or the text form
/// of one read by the codec.
pub open spec fn id_value(v: Value) -> Result<(Seq<char>, Seq<char>), StoreError> {
    match v {
        Value::Id(r) => if r.wf() {
            Ok(r.parts())
        } else {
            Err(StoreError::MalformedIdentifier)
        },
        Value::Text(s) => match parse_spec(s@) {
            Some(p) => Ok(p),
            None => Err(StoreError::MalformedIdentifier),
        },
        _ => Err(StoreError::MalformedIdentifier),
    }
}

/// The identifier that a response reports for the record it wrote: the `id`
/// field of the first record of the first statement result.
pub open spec fn returned_id_spec(resp: Seq<Result<Value, String>>) -> Result<
    (Seq<char>, Seq<char>),
    StoreError,
> {
    if resp.len() == 0 {
        Err(StoreError::Decode(DecodeError::EmptyResponse))
    } else {
        match resp[0] {
            Err(d) => Err(StoreError::Decode(DecodeError::QueryFailed(d))),
            Ok(Value::Array(a)) => if a@.len() == 0 {
                Err(StoreError::NoIdentifierReturned)
            } else {
                match record_of(a@[0]) {
                    Err(e) => Err(StoreError::Decode(e)),
                    Ok(m) => match field(m@, "id"@) {
                        None => Err(StoreError::NoIdentifierReturned),
                        Some(v) => id_value(v),
                    },
                }
            },
            Ok(_) => Err(StoreError::Decode(DecodeError::UnexpectedShape)),
        }
    }
}

/// `r` is the exec form of the outcome `o`.
pub open spec fn id_result_is(
    r: Result<RecordId, StoreError>,
    o: Result<(Seq<char>, Seq<char>), StoreError>,
) -> bool {
    match (r, o) {
        (Ok(id), Ok(p)) => id.wf() && id.parts() == p,
        (Err(e), Err(f)) => e == f,
        _ => false,
    }
}

fn id_from_value(v: &Value) -> (r: Result<RecordId, StoreError>)
    ensures
        id_result_is(r, id_value(*v)),
{
    match v {
        Value::Id(id) => {
            if id.is_valid() {
                Ok(id.duplicate())
            } else {
                Err(StoreError::MalformedIdentifier)
            }
        },
        Value::Text(s) => match parse(s.as_str()) {
            Ok(id) => Ok(id),
            Err(_) => Err(StoreError::MalformedIdentifier),
        },
        _ => Err(StoreError::MalformedIdentifier),
    }
}

/// Reads the identifier that a `create` or `set_status` response hands back.
/// A statement that wrote no record yields `NoIdentifierReturned`.
pub fn returned_id(response: Vec<Result<Value, String>>) -> (r: Result<RecordId, StoreError>)
    ensures
        id_result_is(r, returned_id_spec(response@)),
{
    let ghost resp = response@;
    match decode_records(response) {
        Err(e) => Err(StoreError::Decode(e)),
        Ok(mut rs) => match rs.next() {
            None => Err(StoreError::NoIdentifierReturned),
            Some(Err(e)) => Err(StoreError::Decode(e)),
            Some(Ok(m)) => match get_field(&m, "id") {
                None => Err(StoreError::NoIdentifierReturned),
                Some(v) => id_from_value(v),
            },
        },
    }
}

/// What a `delete` response means: only a failed statement is an error;
/// deleting a record that does not exist is no error.
pub fn deleted(response: Vec<Result<Value, String>>) -> (r: Result<(), StoreError>)
    ensures
        response@.len() > 0 && response@[0] is Err ==> r == Err::<(), StoreError>(
            StoreError::Decode(DecodeError::QueryFailed(response@[0]->Err_0)),
        ),
        !(response@.len() > 0 && response@[0] is Err) ==> r is Ok,
{
    let mut response = response;
    if response.len() == 0 {
        return Ok(());
    }
    match response.swap_remove(0) {
        Err(d) => Err(StoreError::Decode(DecodeError::QueryFailed(d))),
        Ok(_) => Ok(()),
    }
}

/// What a field map of the task table reads as: its `id`, `title`,
/// `created_at` and `status` fields, checked in that order.
pub open spec fn task_spec(m: Seq<(String, Value)>) -> Result<TaskView, StoreError> {
    match field(m, "id"@) {
        None => Err(StoreError::NoIdentifierReturned),
        Some(v) => match id_value(v) {
            Err(e) => Err(e),
            Ok(id) => match (field(m, "title"@), field(m, "created_at"@), field(m, "status"@)) {
                (Some(Value::Text(title)), Some(Value::Datetime(created_at)), Some(Value::Text(tag))) => {
                    match status_of_tag(tag@) {
                        None => Err(StoreError::UnknownStatusTag),
                        Some(status) => Ok(TaskView { id, title: title@, created_at, status }),
                    }
                },
                _ => Err(StoreError::Decode(DecodeError::UnexpectedShape)),
            },
        },
    }
}

/// What the entries of a `list` result read as: all their tasks, or the
/// error of the first entry that is no task.
pub open spec fn tasks_spec(a: Seq<Value>) -> Result<Seq<TaskView>, StoreError>
    decreases a.len(),
{
    if a.len() == 0 {
        Ok(Seq::empty())
    } else {
        match record_of(a[0]) {
            Err(e) => Err(StoreError::Decode(e)),
            Ok(m) => match task_spec(m@) {
                Err(e) => Err(e),
                Ok(t) => match tasks_spec(a.drop_first()) {
                    Err(e) => Err(e),
                    Ok(ts) => Ok(seq![t] + ts),
                },
            },
        }
    }
}

/// What a `list` response reads as.
pub open spec fn list_spec(resp: Seq<Result<Value, String>>) -> Result<Seq<TaskView>, StoreError> {
    if resp.len() == 0 {
        Err(StoreError::Decode(DecodeError::EmptyResponse))
    } else {
        match resp[0] {
            Err(d) => Err(StoreError::Decode(DecodeError::QueryFailed(d))),
            Ok(Value::Array(a)) => tasks_spec(a@),
            Ok(_) => Err(StoreError::Decode(DecodeError::UnexpectedShape)),
        }
    }
}

/// `r` is the exec form of the outcome `o`.
pub open spec fn tasks_result_is(
    r: Result<Vec<StoredTask>, StoreError>,
    o: Result<Seq<TaskView>, StoreError>,
) -> bool {
    match (r, o) {
        (Ok(ts), Ok(vs)) => ts@.map_values(|t: StoredTask| t@) == vs,
        (Err(e), Err(f)) => e == f,
        _ => false,
    }
}

/// Prepends the tasks read so far to the outcome of the rest.
pub open spec fn after(done: Seq<TaskView>, o: Result<Seq<TaskView>, StoreError>) -> Result<
    Seq<TaskView>,
    StoreError,
> {
    match o {
        Ok(ts) => Ok(done + ts),
        Err(e) => Err(e),
    }
}

/// Reads one field map of the task table as a stored task.
pub fn task_from_fields(m: &Vec<(String, Value)>) -> (r: Result<StoredTask, StoreError>)
    ensures
        match (r, task_spec(m@)) {
            (Ok(t), Ok(v)) => t@ == v && t.id.wf(),
            (Err(e), Err(f)) => e == f,
            _ => false,
        },
{
    let id = match get_field(m, "id") {
        None => {
            return Err(StoreError::NoIdentifierReturned);
        },
        Some(v) => match id_from_value(v) {
            Err(e) => {
                return Err(e);
            },
            Ok(id) => id,
        },
    };
    let title = get_field(m, "title");
    let created_at = get_field(m, "created_at");
    let status = get_field(m, "status");
    match (title, created_at, status) {
        (Some(Value::Text(title)), Some(Value::Datetime(created_at)), Some(Value::Text(tag))) => {
            match Status::from_tag(tag.as_str()) {
                None => Err(StoreError::UnknownStatusTag),
                Some(status) => Ok(
                    StoredTask {
                        id,
                        task: Task { title: title.clone(), created_at: *created_at, status },
                    },
                ),
            }
        },
        _ => Err(StoreError::Decode(DecodeError::UnexpectedShape)),
    }
}

/// Reads the tasks that a `list` response holds, in the order given.
pub fn decode_tasks(response: Vec<Result<Value, String>>) -> (r: Result<Vec<StoredTask>, StoreError>)
    ensures
        tasks_result_is(r, list_spec(response@)),
{
    let ghost resp = response@;
    let mut rs = match decode_records(response) {
        Err(e) => {
            return Err(StoreError::Decode(e));
        },
        Ok(rs) => rs,
    };
    let mut out: Vec<StoredTask> = Vec::new();
    while !rs.is_done()
        invariant
            resp == response@,
            list_spec(resp) == after(out@.map_values(|t: StoredTask| t@), tasks_spec(rs.remaining())),
        decreases rs.remaining().len(),
    {
        let ghost rem = rs.remaining();
        match rs.next() {
            None => {},
            Some(Err(e)) => {
                return Err(StoreError::Decode(e));
            },
            Some(Ok(m)) => {
                match task_from_fields(&m) {
                    Err(e) => {
                        return Err(e);
                    },
                    Ok(t) => {
                        let ghost done = out@.map_values(|t: StoredTask| t@);
                        out.push(t);
                        assert(out@.map_values(|t: StoredTask| t@) =~= done.push(t@));
                        proof {
                            match tasks_spec(rs.remaining()) {
                                Ok(ts) => {
                                    assert(done + (seq![t@] + ts) =~= done.push(t@) + ts);
                                },
                                Err(_) => {},
                            }
                        }
                    },
                }
            },
        }
    }
    assert(out@.map_values(|t: StoredTask| t@) + Seq::<TaskView>::empty() =~= out@.map_values(
        |t: StoredTask| t@,
    ));
    Ok(out)
}

} // verus!
