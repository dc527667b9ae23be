//! A datastore that keeps its records in memory and runs the four statement
//! shapes of the task store on them.
use vstd::prelude::*;
use crate::ident::RecordId;
use crate::store::Query;
use crate::value::{first_field, get_field, Value};

verus! {

/// A value with no array or field map inside: what a stored field may hold.
pub open spec fn flat(v: Value) -> bool {
    !(v is Array) && !(v is Object)
}

pub open spec fn all_flat(m: Seq<(String, Value)>) -> bool {
    forall|i: int| 0 <= i < m.len() ==> flat(#[trigger] m[i].1)
}

/// One stored record: its identifier and its fields, `id` first.
pub struct Row {
    pub id: RecordId,
    pub fields: Vec<(String, Value)>,
}

/// A stored record as plain values.
pub open spec fn row_view(r: Row) -> ((Seq<char>, Seq<char>), Seq<(String, Value)>) {
    (r.id.parts(), r.fields@)
}

/// `m` with `name` set to `v`: the first entry under `name` replaced, or a
/// new entry at the end.
pub open spec fn with_field(m: Seq<(String, Value)>, name: String, v: Value) -> Seq<(String, Value)> {
    if exists|i: int| first_field(m, name@, i) {
        let i = choose|i: int| first_field(m, name@, i);
        m.update(i, (name, v))
    } else {
        m.push((name, v))
    }
}

/// `m` with every entry of `data` set, front to back.
pub open spec fn merged(m: Seq<(String, Value)>, data: Seq<(String, Value)>) -> Seq<(String, Value)>
    decreases data.len(),
{
    if data.len() == 0 {
        m
    } else {
        merged(with_field(m, data[0].0, data[0].1), data.drop_first())
    }
}

/// A copy of a flat value.
fn copy_flat(v: &Value) -> (r: Value)
    requires
        flat(*v),
    ensures
        r == *v,
{
    match v {
        Value::Null => Value::Null,
        Value::Bool(b) => Value::Bool(*b),
        Value::Number(n) => Value::Number(*n),
        Value::Text(s) => Value::Text(s.clone()),
        Value::Datetime(t) => Value::Datetime(*t),
        Value::Id(id) => Value::Id(id.duplicate()),
        _ => Value::Null,
    }
}

/// A copy of a field map of flat values.
fn copy_fields(m: &Vec<(String, Value)>) -> (r: Vec<(String, Value)>)
    requires
        all_flat(m@),
    ensures
        r@ == m@,
{
    let mut r: Vec<(String, Value)> = Vec::new();
    let mut i: usize = 0;
    while i < m.len()
        invariant
            i <= m@.len(),
            all_flat(m@),
            r@ == m@.take(i as int),
        decreases m@.len() - i,
    {
        let name = m[i].0.clone();
        let v = copy_flat(&m[i].1);
        r.push((name, v));
        assert(m@.take(i as int + 1) =~= m@.take(i as int).push(m@[i as int]));
        i = i + 1;
    }
    assert(m@.take(m@.len() as int) =~= m@);
    r
}

/// Whether every value of a field map is flat.
fn fields_flat(m: &Vec<(String, Value)>) -> (r: bool)
    ensures
        r == all_flat(m@),
{
    let mut i: usize = 0;
    while i < m.len()
        invariant
            i <= m@.len(),
            forall|j: int| 0 <= j < i ==> flat(#[trigger] m@[j].1),
        decreases m@.len() - i,
    {
        match &m[i].1 {
            Value::Array(_) => {
                return false;
            },
            Value::Object(_) => {
                return false;
            },
            _ => {},
        }
        i = i + 1;
    }
    true
}

/// Sets `name` to `v` in a field map.
fn set_field(m: &mut Vec<(String, Value)>, name: String, v: Value)
    ensures
        final(m)@ == with_field(old(m)@, name, v),
{
    let ghost nm = name;
    let found = match get_field(m, name.as_str()) {
        Some(_) => true,
        None => false,
    };
    if !found {
        m.push((name, v));
        return;
    }
    let mut i: usize = 0;
    while i < m.len()
        invariant
            i <= m@.len(),
            m@ == old(m)@,
            nm == name,
            exists|k: int| first_field(m@, name@, k),
            forall|j: int| 0 <= j < i ==> m@[j].0@ != name@,
        decreases m@.len() - i,
    {
        if crate::text::same_text(m[i].0.as_str(), name.as_str()) {
            proof {
                let k = choose|k: int| first_field(m@, name@, k);
                crate::value::lemma_first_field_unique(m@, name@, i as int, k);
            }
            m.set(i, (name, v));
            return;
        }
        i = i + 1;
    }
    proof {
        let k = choose|k: int| first_field(m@, name@, k);
        assert(m@[k].0@ == name@);
    }
}

/// The character of a decimal digit.
pub open spec fn digit_char(d: nat) -> char {
    if d == 0 { '0' } else if d == 1 { '1' } else if d == 2 { '2' } else if d == 3 { '3' }
    else if d == 4 { '4' } else if d == 5 { '5' } else if d == 6 { '6' } else if d == 7 { '7' }
    else if d == 8 { '8' } else { '9' }
}

/// The decimal digits of `n`.
pub open spec fn decimal(n: nat) -> Seq<char>
    decreases n,
{
    if n < 10 {
        seq![digit_char(n)]
    } else {
        decimal(n / 10).push(digit_char(n % 10))
    }
}

fn digit_text(d: u64) -> (r: &'static str)
    requires
        d < 10,
    ensures
        r@ == seq![digit_char(d as nat)],
{
    let r = match d {
        0 => {
            proof {
                reveal_strlit("0");
            }
            "0"
        },
        1 => {
            proof {
                reveal_strlit("1");
            }
            "1"
        },
        2 => {
            proof {
                reveal_strlit("2");
            }
            "2"
        },
        3 => {
            proof {
                reveal_strlit("3");
            }
            "3"
        },
        4 => {
            proof {
                reveal_strlit("4");
            }
            "4"
        },
        5 => {
            proof {
                reveal_strlit("5");
            }
            "5"
        },
        6 => {
            proof {
                reveal_strlit("6");
            }
            "6"
        },
        7 => {
            proof {
                reveal_strlit("7");
            }
            "7"
        },
        8 => {
            proof {
                reveal_strlit("8");
            }
            "8"
        },
        _ => {
            proof {
                reveal_strlit("9");
            }
            "9"
        },
    };
    assert(r@ =~= seq![digit_char(d as nat)]);
    r
}

/// Writes `n` in decimal.
pub fn decimal_text(n: u64) -> (r: String)
    ensures
        r@ == decimal(n as nat),
    decreases n,
{
    if n < 10 {
        String::from_str(digit_text(n))
    } else {
        let mut r = decimal_text(n / 10);
        r.append(digit_text(n % 10));
        r
    }
}

/// A record as plain values: its identifier's parts and its fields.
pub type RecordView = ((Seq<char>, Seq<char>), Seq<(String, Value)>);

/// Every identifier well formed and used once; every field flat.
pub open spec fn records_wf(recs: Seq<RecordView>) -> bool {
    &&& forall|i: int| 0 <= i < recs.len() ==> crate::ident::valid_parts(#[trigger] recs[i].0.0, recs[i].0.1)
    &&& forall|i: int| 0 <= i < recs.len() ==> all_flat(#[trigger] recs[i].1)
    &&& forall|i: int, j: int| 0 <= i < recs.len() && 0 <= j < recs.len() && i != j ==> #[trigger] recs[i].0 != #[trigger] recs[j].0
}

/// Some record has identifier `p`.
pub open spec fn holds(recs: Seq<RecordView>, p: (Seq<char>, Seq<char>)) -> bool {
    exists|i: int| 0 <= i < recs.len() && #[trigger] recs[i].0 == p
}

/// Where the record with identifier `p` stands.
pub open spec fn position(recs: Seq<RecordView>, p: (Seq<char>, Seq<char>)) -> int {
    choose|i: int| 0 <= i < recs.len() && #[trigger] recs[i].0 == p
}

/// The fields of the records of `table`, in order.
pub open spec fn selected(recs: Seq<RecordView>, table: Seq<char>) -> Seq<Seq<(String, Value)>>
    decreases recs.len(),
{
    if recs.len() == 0 {
        Seq::empty()
    } else if recs.last().0.0 == table {
        selected(recs.drop_last(), table).push(recs.last().1)
    } else {
        selected(recs.drop_last(), table)
    }
}

/// `a` holds, in order, field maps with the given fields.
pub open spec fn objects_are(a: Seq<Value>, ms: Seq<Seq<(String, Value)>>) -> bool {
    &&& a.len() == ms.len()
    &&& forall|k: int| 0 <= k < a.len() ==> (#[trigger] a[k] matches Value::Object(m) && m@ == ms[k])
}

/// A response of one successful statement whose result is an array holding
/// field maps with the given fields.
pub open spec fn answers(r: Seq<Result<Value, String>>, ms: Seq<Seq<(String, Value)>>) -> bool {
    &&& r.len() == 1
    &&& r[0] matches Ok(Value::Array(a)) && objects_are(a@, ms)
}

/// A response of one failed statement.
pub open spec fn fails(r: Seq<Result<Value, String>>) -> bool {
    r.len() == 1 && r[0] is Err
}

/// `f` is a new record's fields: its `id`, then `data`.
pub open spec fn created_fields(f: Seq<(String, Value)>, p: (Seq<char>, Seq<char>), data: Seq<(String, Value)>) -> bool {
    &&& f.len() == data.len() + 1
    &&& f[0].0@ == "id"@
    &&& f[0].1 matches Value::Id(rid) && rid.parts() == p
    &&& f.skip(1) == data
}

/// `m` holds just the field `id`, with identifier `p`.
pub open spec fn id_only(m: Seq<(String, Value)>, p: (Seq<char>, Seq<char>)) -> bool {
    &&& m.len() == 1
    &&& m[0].0@ == "id"@
    &&& m[0].1 matches Value::Id(rid) && rid.parts() == p
}

/// Whether a `CREATE` into `table` with counter `n` can store a record.
pub open spec fn can_create(recs: Seq<RecordView>, n: nat, table: Seq<char>, data: Seq<(String, Value)>) -> bool {
    &&& n < u64::MAX
    &&& crate::ident::valid_parts(table, decimal(n))
    &&& all_flat(data)
    &&& !holds(recs, (table, decimal(n)))
}

/// What `CREATE <table> CONTENT $data` does to an engine and answers.
pub open spec fn create_post(
    pre: MemoryEngine,
    post: MemoryEngine,
    table: String,
    data: Vec<(String, Value)>,
    r: Seq<Result<Value, String>>,
) -> bool {
    &&& can_create(pre.records(), pre.counter(), table@, data@) ==> {
        &&& post.records().len() == pre.records().len() + 1
        &&& post.records().drop_last() == pre.records()
        &&& post.records().last().0 == (table@, decimal(pre.counter()))
        &&& created_fields(
            post.records().last().1,
            (table@, decimal(pre.counter())),
            data@,
        )
        &&& post.counter() == pre.counter() + 1
        &&& answers(r, seq![post.records().last().1])
    }
    &&& !can_create(pre.records(), pre.counter(), table@, data@) ==> {
        &&& post.records() == pre.records()
        &&& post.counter() == pre.counter()
        &&& fails(r)
    }
}

/// A response of one successful statement whose result is an array holding
/// one field map, with just the field `id`, holding `p`.
pub open spec fn answers_id(r: Seq<Result<Value, String>>, p: (Seq<char>, Seq<char>)) -> bool {
    &&& r.len() == 1
    &&& r[0] matches Ok(Value::Array(a)) && a@.len() == 1 && id_object(a@[0], p)
}

/// `v` is a field map with just the field `id`, holding `p`.
pub open spec fn id_object(v: Value, p: (Seq<char>, Seq<char>)) -> bool {
    v matches Value::Object(m) && id_only(m@, p)
}

/// What `UPDATE $target MERGE $data RETURN id` does to an engine and answers.
pub open spec fn merge_post(
    pre: MemoryEngine,
    post: MemoryEngine,
    target: RecordId,
    data: Vec<(String, Value)>,
    r: Seq<Result<Value, String>>,
) -> bool {
    let p = target.parts();
    let recs = pre.records();
    &&& post.counter() == pre.counter()
    &&& !holds(recs, p) ==> post.records() == recs && answers(r, Seq::empty())
    &&& holds(recs, p) && !all_flat(data@) ==> post.records() == recs && fails(r)
    &&& holds(recs, p) && all_flat(data@) ==> {
        &&& post.records() == recs.update(
            position(recs, p),
            (p, merged(recs[position(recs, p)].1, data@)),
        )
        &&& answers_id(r, p)
    }
}

/// What `DELETE $target` does to an engine and answers.
pub open spec fn delete_post(pre: MemoryEngine, post: MemoryEngine, target: RecordId, r: Seq<Result<Value, String>>) -> bool {
    let p = target.parts();
    let recs = pre.records();
    &&& post.counter() == pre.counter()
    &&& holds(recs, p) ==> post.records() == recs.remove(position(recs, p))
    &&& !holds(recs, p) ==> post.records() == recs
    &&& !holds(post.records(), p)
    &&& answers(r, Seq::empty())
}

/// What `SELECT * FROM <table>` answers; it changes nothing.
pub open spec fn select_post(pre: MemoryEngine, post: MemoryEngine, table: String, r: Seq<Result<Value, String>>) -> bool {
    &&& post == pre
    &&& answers(r, selected(pre.records(), table@))
}

/// Setting a flat value keeps a field map flat.
pub proof fn lemma_with_field_flat(m: Seq<(String, Value)>, name: String, v: Value)
    requires
        all_flat(m),
        flat(v),
    ensures
        all_flat(with_field(m, name, v)),
{
    let w = with_field(m, name, v);
    assert forall|k: int| 0 <= k < w.len() implies flat(#[trigger] w[k].1) by {
        if k < m.len() && w[k] == m[k] {
        }
    }
}

/// Merging flat values keeps a field map flat.
pub proof fn lemma_merged_flat(m: Seq<(String, Value)>, data: Seq<(String, Value)>)
    requires
        all_flat(m),
        all_flat(data),
    ensures
        all_flat(merged(m, data)),
    decreases data.len(),
{
    if data.len() > 0 {
        lemma_with_field_flat(m, data[0].0, data[0].1);
        let rest = data.drop_first();
        assert forall|k: int| 0 <= k < rest.len() implies flat(#[trigger] rest[k].1) by {
            assert(rest[k] == data[k + 1]);
        }
        lemma_merged_flat(with_field(m, data[0].0, data[0].1), rest);
    }
}

/// A datastore that holds its records in memory.
pub struct MemoryEngine {
    rows: Vec<Row>,
    next_key: u64,
}

impl MemoryEngine {
    /// The records held, in the order they were created.
    pub closed spec fn records(&self) -> Seq<RecordView> {
        self.rows@.map_values(|r: Row| row_view(r))
    }

    /// The number from which the next record's key is made.
    pub closed spec fn counter(&self) -> nat {
        self.next_key as nat
    }

    pub open spec fn wf(&self) -> bool {
        records_wf(self.records())
    }

    /// An engine that holds no record.
    pub fn new() -> (r: MemoryEngine)
        ensures
            r.wf(),
            r.records().len() == 0,
            r.counter() == 0,
    {
        let r = MemoryEngine { rows: Vec::new(), next_key: 0 };
        assert(r.records() =~= Seq::<RecordView>::empty());
        r
    }

    /// Runs `CREATE <table> CONTENT $data`: stores a record whose key is
    /// the counter in decimal, with the field `id` first and then `data`,
    /// and answers with that record. Fails where the identifier would be
    /// malformed or taken, or `data` holds an array or a field map.
    pub fn create(&mut self, table: String, data: Vec<(String, Value)>) -> (r: Vec<Result<Value, String>>)
        requires
            old(self).wf(),
        ensures
            final(self).wf(),
            create_post(*old(self), *final(self), table, data, r@),
    {
        let mut out: Vec<Result<Value, String>> = Vec::new();
        if self.next_key == u64::MAX {
            out.push(Err(String::from_str("no key is left")));
            return out;
        }
        let key = decimal_text(self.next_key);
        let id = RecordId { table, key };
        if !id.is_valid() {
            out.push(Err(String::from_str("malformed record identifier")));
            return out;
        }
        if !fields_flat(&data) {
            out.push(Err(String::from_str("only flat values can be stored")));
            return out;
        }
        match self.find(&id) {
            Some(_) => {
                out.push(Err(String::from_str("record already exists")));
                return out;
            },
            None => {},
        }
        let ghost old_recs = self.records();
        let ghost old_data = data@;
        let mut fields: Vec<(String, Value)> = Vec::new();
        proof {
            reveal_strlit("id");
        }
        fields.push((String::from_str("id"), Value::Id(id.duplicate())));
        let mut data = data;
        fields.append(&mut data);
        let reply = copy_fields(&fields);
        let row = Row { id, fields };
        self.rows.push(row);
        self.next_key = self.next_key + 1;
        let mut arr: Vec<Value> = Vec::new();
        arr.push(Value::Object(reply));
        out.push(Ok(Value::Array(arr)));
        proof {
            assert(self.records() =~= old_recs.push(row_view(row)));
            assert(self.records().drop_last() =~= old_recs);
            assert(row.fields@.skip(1) =~= old_data);
            assert forall|k: int| 0 <= k < row.fields@.len() implies flat(#[trigger] row.fields@[k].1) by {
                if k > 0 {
                    assert(row.fields@[k] == old_data[k - 1]);
                }
            }
            assert forall|a: int, b: int|
                0 <= a < self.records().len() && 0 <= b < self.records().len() && a != b
                implies #[trigger] self.records()[a].0 != #[trigger] self.records()[b].0 by {
                if a == old_recs.len() {
                    assert(old_recs[b].0 != row.id.parts());
                } else if b == old_recs.len() {
                    assert(old_recs[a].0 != row.id.parts());
                } else {
                    assert(old_recs[a].0 != old_recs[b].0);
                }
            }
        }
        out
    }

    /// Runs `UPDATE $target MERGE $data RETURN id`: sets each field of
    /// `data` in the record with identifier `target` and answers with that
    /// identifier; answers with no record where there is none.
    pub fn merge(&mut self, target: RecordId, data: Vec<(String, Value)>) -> (r: Vec<Result<Value, String>>)
        requires
            old(self).wf(),
        ensures
            final(self).wf(),
            merge_post(*old(self), *final(self), target, data, r@),
    {
        let mut out: Vec<Result<Value, String>> = Vec::new();
        let pos = match self.find(&target) {
            None => {
                out.push(Ok(Value::Array(Vec::new())));
                assert(out@[0]->Ok_0->Array_0@ =~= Seq::<Value>::empty());
                return out;
            },
            Some(pos) => pos,
        };
        if !fields_flat(&data) {
            out.push(Err(String::from_str("only flat values can be stored")));
            return out;
        }
        let ghost recs = self.records();
        let ghost orig_data = data@;
        let mut fields = copy_fields(&self.rows[pos].fields);
        let ghost orig_fields = fields@;
        let mut data = data;
        while data.len() > 0
            invariant
                merged(orig_fields, orig_data) == merged(fields@, data@),
            decreases data@.len(),
        {
            let ghost d = data@;
            let (name, v) = data.remove(0);
            assert(data@ =~= d.drop_first());
            set_field(&mut fields, name, v);
        }
        proof {
            lemma_merged_flat(orig_fields, orig_data);
        }
        let id = self.rows[pos].id.duplicate();
        self.rows.set(pos, Row { id, fields });
        proof {
            reveal_strlit("id");
        }
        let mut reply: Vec<(String, Value)> = Vec::new();
        reply.push((String::from_str("id"), Value::Id(target)));
        let mut arr: Vec<Value> = Vec::new();
        arr.push(Value::Object(reply));
        out.push(Ok(Value::Array(arr)));
        proof {
            assert(self.records() =~= recs.update(pos as int, (target.parts(), merged(orig_fields, orig_data))));
            assert forall|a: int, b: int|
                0 <= a < self.records().len() && 0 <= b < self.records().len() && a != b
                implies #[trigger] self.records()[a].0 != #[trigger] self.records()[b].0 by {
                assert(self.records()[a].0 == recs[a].0);
                assert(self.records()[b].0 == recs[b].0);
            }
            assert forall|a: int| 0 <= a < self.records().len() implies all_flat(#[trigger] self.records()[a].1) by {
                if a != pos {
                    assert(self.records()[a] == recs[a]);
                }
            }
            assert forall|a: int| 0 <= a < self.records().len() implies crate::ident::valid_parts(#[trigger] self.records()[a].0.0, self.records()[a].0.1) by {
                assert(self.records()[a].0 == recs[a].0);
            }
        }
        out
    }

    /// Runs `DELETE $target`: removes the record with identifier `target`,
    /// if there is one, and answers with no record.
    pub fn delete(&mut self, target: &RecordId) -> (r: Vec<Result<Value, String>>)
        requires
            old(self).wf(),
        ensures
            final(self).wf(),
            delete_post(*old(self), *final(self), *target, r@),
    {
        let ghost recs = self.records();
        match self.find(target) {
            None => {},
            Some(pos) => {
                self.rows.remove(pos);
                proof {
                    let n = self.records();
                    assert(n =~= recs.remove(pos as int));
                    assert forall|k: int| 0 <= k < n.len() implies #[trigger] n[k] == recs[if k < pos { k } else { k + 1 }] by {}
                    assert forall|a: int, b: int|
                        0 <= a < n.len() && 0 <= b < n.len() && a != b
                        implies #[trigger] n[a].0 != #[trigger] n[b].0 by {
                        let a2 = if a < pos { a } else { a + 1 };
                        let b2 = if b < pos { b } else { b + 1 };
                        assert(recs[a2].0 != recs[b2].0);
                    }
                    assert forall|k: int| 0 <= k < n.len() implies #[trigger] n[k].0 != target.parts() by {
                        let k2 = if k < pos { k } else { k + 1 };
                        assert(recs[k2].0 != recs[pos as int].0);
                    }
                    assert forall|k: int| 0 <= k < n.len() implies all_flat(#[trigger] n[k].1) by {
                        let k2 = if k < pos { k } else { k + 1 };
                        assert(all_flat(recs[k2].1));
                    }
                    assert forall|k: int| 0 <= k < n.len() implies crate::ident::valid_parts(#[trigger] n[k].0.0, n[k].0.1) by {
                        let k2 = if k < pos { k } else { k + 1 };
                        assert(crate::ident::valid_parts(recs[k2].0.0, recs[k2].0.1));
                    }
                }
            },
        }
        let mut out: Vec<Result<Value, String>> = Vec::new();
        out.push(Ok(Value::Array(Vec::new())));
        assert(out@[0]->Ok_0->Array_0@ =~= Seq::<Value>::empty());
        out
    }

    /// Runs `SELECT * FROM <table>`: answers with the records of `table`,
    /// in the order they were created.
    pub fn select_all(&self, table: &String) -> (r: Vec<Result<Value, String>>)
        requires
            self.wf(),
        ensures
            select_post(*self, *self, *table, r@),
    {
        let mut arr: Vec<Value> = Vec::new();
        let mut i: usize = 0;
        while i < self.rows.len()
            invariant
                i <= self.rows@.len(),
                self.wf(),
                objects_are(arr@, selected(self.records().take(i as int), table@)),
            decreases self.rows@.len() - i,
        {
            let ghost before = arr@;
            proof {
                let recs = self.records();
                assert(recs.take(i as int + 1).drop_last() =~= recs.take(i as int));
                assert(recs.take(i as int + 1).last() == recs[i as int]);
                assert(all_flat(recs[i as int].1));
            }
            if crate::text::same_text(self.rows[i].id.table.as_str(), table.as_str()) {
                let m = copy_fields(&self.rows[i].fields);
                arr.push(Value::Object(m));
                proof {
                    let sel = selected(self.records().take(i as int + 1), table@);
                    assert forall|k: int| 0 <= k < arr@.len() implies (#[trigger] arr@[k] matches Value::Object(m) && m@ == sel[k]) by {
                        if k < before.len() {
                            assert(arr@[k] == before[k]);
                        }
                    }
                }
            }
            i = i + 1;
        }
        assert(self.records().take(self.rows@.len() as int) =~= self.records());
        let mut out: Vec<Result<Value, String>> = Vec::new();
        out.push(Ok(Value::Array(arr)));
        out
    }

    /// Runs one query and answers with its statement's outcome.
    pub fn execute(&mut self, q: Query) -> (r: Vec<Result<Value, String>>)
        requires
            old(self).wf(),
        ensures
            final(self).wf(),
            match q {
                Query::Create { table, data } => create_post(*old(self), *final(self), table, data, r@),
                Query::Merge { target, data } => merge_post(*old(self), *final(self), target, data, r@),
                Query::Delete { target } => delete_post(*old(self), *final(self), target, r@),
                Query::SelectAll { table } => select_post(*old(self), *final(self), table, r@),
            },
    {
        match q {
            Query::Create { table, data } => self.create(table, data),
            Query::Merge { target, data } => self.merge(target, data),
            Query::Delete { target } => self.delete(&target),
            Query::SelectAll { table } => self.select_all(&table),
        }
    }

    /// Where the record with identifier `id` stands.
    pub fn find(&self, id: &RecordId) -> (r: Option<usize>)
        requires
            self.wf(),
        ensures
            match r {
                Some(i) => i < self.records().len() && self.records()[i as int].0 == id.parts()
                    && holds(self.records(), id.parts()) && position(self.records(), id.parts()) == i,
                None => !holds(self.records(), id.parts()),
            },
    {
        let mut i: usize = 0;
        while i < self.rows.len()
            invariant
                i <= self.rows@.len(),
                self.wf(),
                forall|j: int| 0 <= j < i ==> #[trigger] self.records()[j].0 != id.parts(),
            decreases self.rows@.len() - i,
        {
            if self.rows[i].id.same_as(id) {
                assert(self.records()[i as int].0 == id.parts());
                proof {
                    let k = position(self.records(), id.parts());
                    assert(self.records()[k].0 == id.parts());
                    if k != i {
                        assert(self.records()[k].0 != self.records()[i as int].0);
                    }
                }
                return Some(i);
            }
            i = i + 1;
        }
        None
    }
}

} // verus!
