//! Task snapshots: copies of a task's persisted row, as the creation path,
//! the recovery loader, the scheduling queue and the executors hand them on.

use vstd::prelude::*;

verus! {

/// The two kinds of task.
#[derive(Clone, Copy, Debug, PartialEq, Eq, Structural)]
pub enum TaskKind {
    Webhook,
    Hash,
}

/// A webhook task: POST `body` to `url` at `execution_time`.
#[derive(Clone, Debug)]
pub struct ApiWebhook {
    pub id: String,
    pub state: String,
    pub execution_time: String,
    pub url: String,
    pub body: String,
}

/// A hash task: derive a salted hash of `secret` at `execution_time`.
#[derive(Clone, Debug)]
pub struct ApiHash {
    pub id: String,
    pub state: String,
    pub execution_time: String,
    pub secret: String,
}

/// A snapshot of a task of either kind.
#[derive(Clone, Debug)]
pub enum Task {
    Webhook(ApiWebhook),
    Hash(ApiHash),
}

impl Task {
    pub open spec fn kind_spec(&self) -> TaskKind {
        match self {
            Task::Webhook(_) => TaskKind::Webhook,
            Task::Hash(_) => TaskKind::Hash,
        }
    }

    pub open spec fn id_spec(&self) -> Seq<char> {
        match self {
            Task::Webhook(w) => w.id@,
            Task::Hash(h) => h.id@,
        }
    }

    pub open spec fn execution_time_spec(&self) -> Seq<char> {
        match self {
            Task::Webhook(w) => w.execution_time@,
            Task::Hash(h) => h.execution_time@,
        }
    }

    pub fn kind(&self) -> (r: TaskKind)
        ensures
            r == self.kind_spec(),
    {
        match self {
            Task::Webhook(_) => TaskKind::Webhook,
            Task::Hash(_) => TaskKind::Hash,
        }
    }

    pub fn id(&self) -> (r: &String)
        ensures
            r@ == self.id_spec(),
    {
        match self {
            Task::Webhook(w) => &w.id,
            Task::Hash(h) => &h.id,
        }
    }

    pub fn execution_time(&self) -> (r: &String)
        ensures
            r@ == self.execution_time_spec(),
    {
        match self {
            Task::Webhook(w) => &w.execution_time,
            Task::Hash(h) => &h.execution_time,
        }
    }
}

} // verus!
