//! Turns the datastore's generic response into field maps.
use vstd::prelude::*;
use crate::value::Value;

verus! {

/// Why a response could not be read as records.
#[derive(Debug, Clone, PartialEq, Eq)]
pub enum DecodeError {
    /// The response held no statement result.
    EmptyResponse,
    /// The first statement result was not an array.
    UnexpectedShape,
    /// An entry of the array was not a field map.
    RecordNotAnObject,
    /// The store failed to run the statement; its own message.
    QueryFailed(String),
}

/// What one array entry decodes to.
pub open spec fn record_of(v: Value) -> Result<Vec<(String, Value)>, DecodeError> {
    match v {
        Value::Object(m) => Ok(m),
        _ => Err(DecodeError::RecordNotAnObject),
    }
}

/// The entries of a successful response, handed out one at a time, front to
/// back. Each is consumed as it is handed out.
pub struct Records {
    /// The entries not yet handed out, last one first.
    rest: Vec<Value>,
}

impl Records {
    /// The entries not yet handed out, in order.
    pub closed spec fn remaining(&self) -> Seq<Value> {
        Seq::new(self.rest@.len(), |i: int| self.rest@[self.rest@.len() - 1 - i])
    }

    /// Takes the next entry: the field map it holds, or `RecordNotAnObject`
    /// where it holds something else. `None` once all are taken.
    pub fn next(&mut self) -> (r: Option<Result<Vec<(String, Value)>, DecodeError>>)
        ensures
            old(self).remaining().len() == 0 ==> r is None && final(self).remaining()
                == old(self).remaining(),
            old(self).remaining().len() > 0 ==> r == Some(record_of(old(self).remaining()[0]))
                && final(self).remaining() == old(self).remaining().drop_first(),
    {
        let ghost before = self.remaining();
        match self.rest.pop() {
            None => {
                assert(self.remaining() =~= before);
                None
            },
            Some(v) => {
                assert(self.remaining() =~= before.drop_first());
                match v {
                    Value::Object(m) => Some(Ok(m)),
                    _ => Some(Err(DecodeError::RecordNotAnObject)),
                }
            },
        }
    }

    /// Whether every entry has been taken.
    pub fn is_done(&self) -> (r: bool)
        ensures
            r == (self.remaining().len() == 0),
    {
        self.rest.len() == 0
    }
}

/// Reads the first statement result of a response as a sequence of records.
pub fn decode_records(response: Vec<Result<Value, String>>) -> (r: Result<Records, DecodeError>)
    ensures
        response@.len() == 0 ==> r == Err::<Records, DecodeError>(DecodeError::EmptyResponse),
        response@.len() > 0 ==> match response@[0] {
            Err(d) => r == Err::<Records, DecodeError>(DecodeError::QueryFailed(d)),
            Ok(Value::Array(a)) => r matches Ok(rs) && rs.remaining() == a@,
            Ok(_) => r == Err::<Records, DecodeError>(DecodeError::UnexpectedShape),
        },
{
    let mut response = response;
    if response.len() == 0 {
        return Err(DecodeError::EmptyResponse);
    }
    let first = response.swap_remove(0);
    match first {
        Err(d) => Err(DecodeError::QueryFailed(d)),
        Ok(Value::Array(a)) => {
            let ghost all = a@;
            let mut a = a;
            let mut rest: Vec<Value> = Vec::new();
            while a.len() > 0
                invariant
                    a@.len() + rest@.len() == all.len(),
                    a@ == all.take(a@.len() as int),
                    forall|k: int| 0 <= k < rest@.len() ==> rest@[k] == all[all.len() - 1 - k],
                decreases a@.len(),
            {
                let ghost n = a@.len();
                match a.pop() {
                    Some(v) => {
                        rest.push(v);
                    },
                    None => {},
                }
                assert(a@ =~= all.take(a@.len() as int));
            }
            let rs = Records { rest };
            assert(rs.remaining() =~= all);
            Ok(rs)
        },
        Ok(_) => Err(DecodeError::UnexpectedShape),
    }
}

} // verus!
