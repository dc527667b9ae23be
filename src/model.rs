//! Tasks and their lifecycle status.
use vstd::prelude::*;
use crate::ident::RecordId;

verus! {

/// Where a task stands in its lifecycle.
#[derive(Debug, Clone, Copy, PartialEq, Eq, Structural)]
pub enum Status {
    New,
    Started,
    Completed,
}

/// The tag under which a status is stored.
pub open spec fn status_tag(s: Status) -> Seq<char> {
    match s {
        Status::New => seq!['n', 'e', 'w'],
        Status::Started => seq!['s', 't', 'a', 'r', 't', 'e', 'd'],
        Status::Completed => seq!['c', 'o', 'm', 'p', 'l', 'e', 't', 'e', 'd'],
    }
}

/// The status that a stored tag stands for, if any.
pub open spec fn status_of_tag(t: Seq<char>) -> Option<Status> {
    if t == status_tag(Status::New) {
        Some(Status::New)
    } else if t == status_tag(Status::Started) {
        Some(Status::Started)
    } else if t == status_tag(Status::Completed) {
        Some(Status::Completed)
    } else {
        None
    }
}

impl Status {
    /// The tag under which this status is stored: `new`, `started` or
    /// `completed`.
    pub fn tag(&self) -> (r: String)
        ensures
            r@ == status_tag(*self),
    {
        match self {
            Status::New => {
                proof {
                    reveal_strlit("new");
                }
                let r = String::from_str("new");
                assert(r@ =~= status_tag(*self));
                r
            },
            Status::Started => {
                proof {
                    reveal_strlit("started");
                }
                let r = String::from_str("started");
                assert(r@ =~= status_tag(*self));
                r
            },
            Status::Completed => {
                proof {
                    reveal_strlit("completed");
                }
                let r = String::from_str("completed");
                assert(r@ =~= status_tag(*self));
                r
            },
        }
    }

    /// Reads a stored tag back; `None` for a tag that names no status.
    pub fn from_tag(t: &str) -> (r: Option<Status>)
        ensures
            r == status_of_tag(t@),
    {
        let new_tag = Status::New.tag();
        let started_tag = Status::Started.tag();
        let completed_tag = Status::Completed.tag();
        if crate::text::same_text(t, new_tag.as_str()) {
            Some(Status::New)
        } else if crate::text::same_text(t, started_tag.as_str()) {
            Some(Status::Started)
        } else if crate::text::same_text(t, completed_tag.as_str()) {
            Some(Status::Completed)
        } else {
            None
        }
    }
}

/// Reading back the tag of any status gives that status again.
pub proof fn lemma_status_tag_round_trip(s: Status)
    ensures
        status_of_tag(status_tag(s)) == Some(s),
{
    assert(status_tag(Status::New).len() == 3);
    assert(status_tag(Status::Started).len() == 7);
    assert(status_tag(Status::Completed).len() == 9);
}

/// A point in time: seconds since the Unix epoch and the nanoseconds within
/// that second.
#[derive(Debug, Clone, Copy, PartialEq, Eq, Structural)]
pub struct Timestamp {
    pub secs: i64,
    pub nanos: u32,
}

/// A task that has not been stored yet: it has no identifier.
#[derive(Debug, PartialEq, Eq)]
pub struct Task {
    pub title: String,
    pub created_at: Timestamp,
    pub status: Status,
}

/// A task as the store holds it, with the identifier the store gave it.
#[derive(Debug, PartialEq, Eq)]
pub struct StoredTask {
    pub id: RecordId,
    pub task: Task,
}

impl Task {
    pub open spec fn wf(&self) -> bool {
        self.title@.len() > 0
    }

    /// A new draft task with the given title, created at `created_at`, in
    /// status `New`.
    pub fn new(title: &str, created_at: Timestamp) -> (r: Task)
        requires
            title@.len() > 0,
        ensures
            r.wf(),
            r.title@ == title@,
            r.created_at == created_at,
            r.status == Status::New,
    {
        Task { title: String::from_str(title), created_at, status: Status::New }
    }
}

} // verus!

verus! {

/// What a stored task holds, as plain values.
pub struct TaskView {
    pub id: (Seq<char>, Seq<char>),
    pub title: Seq<char>,
    pub created_at: Timestamp,
    pub status: Status,
}

impl View for StoredTask {
    type V = TaskView;

    open spec fn view(&self) -> TaskView {
        TaskView {
            id: self.id.parts(),
            title: self.task.title@,
            created_at: self.task.created_at,
            status: self.task.status,
        }
    }
}

} // verus!
