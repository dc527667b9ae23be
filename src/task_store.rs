//! The task store: domain operations run as queries on an in-memory engine.
use vstd::prelude::*;
use crate::decode::DecodeError;
use crate::ident::{valid_parts, RecordId};
use crate::memory::{decimal, holds, merged, objects_are, position, selected, MemoryEngine, RecordView};
use crate::model::{Status, StoredTask, Task, TaskView};
use crate::store::{
    create_query, decode_tasks, delete_query, deleted, is_status_data, is_task_data, list_query,
    returned_id, set_status_query, task_spec, task_table, tasks_result_is, tasks_spec, StoreError,
};
use crate::value::{field, first_field, Value};

verus! {

/// What the field maps of the task table read as: all their tasks, or the
/// error of the first that is no task.
pub open spec fn tasks_of_maps(ms: Seq<Seq<(String, Value)>>) -> Result<Seq<TaskView>, StoreError>
    decreases ms.len(),
{
    if ms.len() == 0 {
        Ok(Seq::empty())
    } else {
        match task_spec(ms[0]) {
            Err(e) => Err(e),
            Ok(t) => match tasks_of_maps(ms.drop_first()) {
                Err(e) => Err(e),
                Ok(ts) => Ok(seq![t] + ts),
            },
        }
    }
}

/// The identifier that the next task created in `e` gets.
pub open spec fn next_task_id(e: MemoryEngine) -> (Seq<char>, Seq<char>) {
    (task_table(), decimal(e.counter()))
}

/// Whether `e` can store another task: its counter is not used up and the
/// next identifier is free.
pub open spec fn can_store(e: MemoryEngine) -> bool {
    e.counter() < u64::MAX && !holds(e.records(), next_task_id(e))
}

/// Reading entries that are these field maps is reading the field maps.
proof fn lemma_tasks_of_objects(a: Seq<Value>, ms: Seq<Seq<(String, Value)>>)
    requires
        objects_are(a, ms),
    ensures
        tasks_spec(a) == tasks_of_maps(ms),
    decreases a.len(),
{
    if a.len() > 0 {
        let a2 = a.drop_first();
        let ms2 = ms.drop_first();
        assert forall|k: int| 0 <= k < a2.len() implies (#[trigger] a2[k] matches Value::Object(m) && m@ == ms2[k]) by {
            assert(a2[k] == a[k + 1]);
        }
        lemma_tasks_of_objects(a2, ms2);
        assert(a[0] matches Value::Object(m) && m@ == ms[0]);
    }
}

/// The task table's name and any decimal key make a well-formed identifier.
proof fn lemma_task_table_valid(n: nat)
    ensures
        valid_parts(task_table(), decimal(n)),
{
    reveal_with_fuel(decimal, 1);
}

/// Tasks kept in a datastore, created, changed, deleted and listed through
/// queries.
pub struct TaskStore {
    engine: MemoryEngine,
}

impl TaskStore {
    /// The datastore's records.
    pub closed spec fn records(&self) -> Seq<RecordView> {
        self.engine.records()
    }

    pub closed spec fn engine(&self) -> MemoryEngine {
        self.engine
    }

    pub closed spec fn wf(&self) -> bool {
        self.engine.wf()
    }

    /// A store that holds no task.
    pub fn new() -> (r: TaskStore)
        ensures
            r.wf(),
            r.records().len() == 0,
    {
        TaskStore { engine: MemoryEngine::new() }
    }

    /// Stores a draft task and returns the identifier it was given. The new
    /// record holds the task's title, creation time and status tag.
    pub fn create(&mut self, draft: &Task) -> (r: Result<RecordId, StoreError>)
        requires
            old(self).wf(),
            draft.wf(),
        ensures
            final(self).wf(),
            can_store(old(self).engine()) ==> {
                &&& r matches Ok(id) && id.parts() == next_task_id(old(self).engine())
                &&& final(self).records().drop_last() == old(self).records()
                &&& final(self).records().len() == old(self).records().len() + 1
                &&& final(self).records().last().0 == next_task_id(old(self).engine())
                &&& is_task_data(final(self).records().last().1.skip(1), *draft)
            },
            !can_store(old(self).engine()) ==> {
                &&& r matches Err(StoreError::Decode(DecodeError::QueryFailed(_)))
                &&& final(self).records() == old(self).records()
            },
    {
        let q = create_query(draft);
        let ghost qq = q;
        let resp = self.engine.execute(q);
        proof {
            lemma_task_table_valid(old(self).engine.counter());
            let data = qq->Create_data;
            assert(crate::memory::all_flat(data@)) by {
                assert forall|k: int| 0 <= k < data@.len() implies crate::memory::flat(#[trigger] data@[k].1) by {
                    if k == 0 {
                    } else if k == 1 {
                    } else {
                    }
                }
            }
            if can_store(old(self).engine) {
                let f = self.engine.records().last().1;
                let p = next_task_id(old(self).engine);
                assert(first_field(f, "id"@, 0));
                let k = choose|k: int| first_field(f, "id"@, k);
                crate::value::lemma_first_field_unique(f, "id"@, 0, k);
                assert(field(f, "id"@) == Some(f[0].1));
                let a = resp@[0]->Ok_0->Array_0;
                assert(a@[0] matches Value::Object(m) && m@ == f);
            }
        }
        returned_id(resp)
    }

    /// Sets the status of the task under `id` and returns `id`; no other
    /// field changes. Where no task has that identifier nothing changes and
    /// the result is `NoIdentifierReturned`. Any status may follow any other.
    pub fn set_status(&mut self, id: RecordId, status: Status) -> (r: Result<RecordId, StoreError>)
        requires
            old(self).wf(),
        ensures
            final(self).wf(),
            holds(old(self).records(), id.parts()) ==> {
                let pos = position(old(self).records(), id.parts());
                &&& r matches Ok(rid) && rid.parts() == id.parts()
                &&& exists|d: Seq<(String, Value)>|
                    is_status_data(d, status) && final(self).records() == old(self).records().update(
                        pos,
                        (id.parts(), merged(old(self).records()[pos].1, d)),
                    )
            },
            !holds(old(self).records(), id.parts()) ==> {
                &&& r == Err::<RecordId, StoreError>(StoreError::NoIdentifierReturned)
                &&& final(self).records() == old(self).records()
            },
    {
        let ghost p = id.parts();
        let q = set_status_query(id, status);
        let ghost qq = q;
        let resp = self.engine.execute(q);
        proof {
            let data = qq->Merge_data;
            assert(crate::memory::all_flat(data@));
            let recs = old(self).engine.records();
            if holds(recs, p) {
                let pos = position(recs, p);
                assert(valid_parts(recs[pos].0.0, recs[pos].0.1));
                let a = resp@[0]->Ok_0->Array_0;
                let m = a@[0]->Object_0;
                assert(first_field(m@, "id"@, 0));
                let k = choose|k: int| first_field(m@, "id"@, k);
                crate::value::lemma_first_field_unique(m@, "id"@, 0, k);
                assert(is_status_data(data@, status));
            } else {
                let a = resp@[0]->Ok_0->Array_0;
                assert(a@.len() == 0);
            }
        }
        returned_id(resp)
    }

    /// Deletes the task under `id`, if there is one. Deleting a task that
    /// does not exist is no error.
    pub fn delete(&mut self, id: &RecordId) -> (r: Result<(), StoreError>)
        requires
            old(self).wf(),
        ensures
            final(self).wf(),
            r is Ok,
            !holds(final(self).records(), id.parts()),
            holds(old(self).records(), id.parts()) ==> final(self).records() == old(
                self,
            ).records().remove(position(old(self).records(), id.parts())),
            !holds(old(self).records(), id.parts()) ==> final(self).records() == old(
                self,
            ).records(),
    {
        let q = delete_query(id.duplicate());
        let resp = self.engine.execute(q);
        deleted(resp)
    }

    /// Lists the stored tasks, in the order they were created.
    pub fn list(&mut self) -> (r: Result<Vec<StoredTask>, StoreError>)
        requires
            old(self).wf(),
        ensures
            final(self).wf(),
            final(self).records() == old(self).records(),
            tasks_result_is(r, tasks_of_maps(selected(old(self).records(), task_table()))),
    {
        let q = list_query();
        let ghost qq = q;
        let resp = self.engine.execute(q);
        proof {
            let a = resp@[0]->Ok_0->Array_0;
            lemma_tasks_of_objects(a@, selected(old(self).engine.records(), qq->SelectAll_table@));
        }
        decode_tasks(resp)
    }
}

} // verus!
