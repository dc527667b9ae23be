//! The datastore's dynamically typed values.
use vstd::prelude::*;
use crate::ident::RecordId;
use crate::model::Timestamp;

verus! {

/// A value as the datastore holds it and hands it back.
#[derive(Debug, PartialEq, Eq)]
pub enum Value {
    Null,
    Bool(bool),
    Number(i64),
    Text(String),
    Datetime(Timestamp),
    Array(Vec<Value>),
    /// A field map: field names and their values, in order.
    Object(Vec<(String, Value)>),
    Id(RecordId),
}

/// `i` is the first entry of `m` under `name`.
pub open spec fn first_field(m: Seq<(String, Value)>, name: Seq<char>, i: int) -> bool {
    &&& 0 <= i < m.len()
    &&& m[i].0@ == name
    &&& forall|j: int| 0 <= j < i ==> m[j].0@ != name
}

/// The value stored under `name` in a field map: that of its first entry
/// under that name.
pub open spec fn field(m: Seq<(String, Value)>, name: Seq<char>) -> Option<Value> {
    if exists|i: int| first_field(m, name, i) {
        let i = choose|i: int| first_field(m, name, i);
        Some(m[i].1)
    } else {
        None
    }
}

pub proof fn lemma_first_field_unique(m: Seq<(String, Value)>, name: Seq<char>, a: int, b: int)
    requires
        first_field(m, name, a),
        first_field(m, name, b),
    ensures
        a == b,
{
}

/// Looks up a field of a field map by name.
pub fn get_field<'a>(m: &'a Vec<(String, Value)>, name: &str) -> (r: Option<&'a Value>)
    ensures
        match r {
            Some(v) => field(m@, name@) == Some(*v),
            None => field(m@, name@) is None,
        },
{
    let mut i: usize = 0;
    while i < m.len()
        invariant
            i <= m@.len(),
            forall|j: int| 0 <= j < i ==> m@[j].0@ != name@,
        decreases m@.len() - i,
    {
        if crate::text::same_text(m[i].0.as_str(), name) {
            proof {
                assert(first_field(m@, name@, i as int));
                let k = choose|k: int| first_field(m@, name@, k);
                lemma_first_field_unique(m@, name@, i as int, k);
            }
            return Some(&m[i].1);
        }
        i = i + 1;
    }
    None
}

} // verus!
