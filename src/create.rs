//! Accepting new tasks: the checks a creation request must pass and the
//! snapshot it turns into, and reading the filters of listing requests.

use vstd::prelude::*;
use crate::lifecycle::{TaskState, state_of_text, state_text};
use crate::task::{ApiHash, ApiWebhook, Task, TaskKind};
use crate::timing::{TimeError, checked_execution_time, validate_execution_time};

verus! {

/// The lower-case form of a text, as Unicode defines it.
pub uninterp spec fn lower_of(s: Seq<char>) -> Seq<char>;

/// Whether `p` is a prefix of `s`.
pub open spec fn has_prefix(s: Seq<char>, p: Seq<char>) -> bool {
    p.len() <= s.len() && s.subrange(0, p.len() as int) == p
}

/// A target URL with its scheme: one without `http://` or `https://` gets
/// `http://` in front.
pub open spec fn normalized_url(u: Seq<char>) -> Seq<char> {
    if has_prefix(u, "http://"@) || has_prefix(u, "https://"@) {
        u
    } else {
        "http://"@ + u
    }
}

/// The kind a listing filter names, if any.
pub open spec fn kind_of_text(t: Seq<char>) -> Option<TaskKind> {
    if t == "webhook"@ {
        Some(TaskKind::Webhook)
    } else if t == "hash"@ {
        Some(TaskKind::Hash)
    } else {
        None
    }
}

/// Why a creation request is refused.
#[derive(Clone, Copy, Debug, PartialEq, Eq, Structural)]
pub enum CreateError {
    Time(TimeError),
    EmptyUrl,
    EmptyBody,
    EmptySecret,
}

/// An accepted task, ready to be stored and scheduled.
#[derive(Clone, Debug)]
pub struct Created {
    pub task: Task,
    /// The deadline in milliseconds since the Unix epoch.
    pub deadline_ms: i64,
}

/// Relies on std's `str::starts_with`: whether `p` is a prefix of `s`.
#[verifier::external_body]
fn starts_with(s: &str, p: &str) -> (r: bool)
    ensures
        r == has_prefix(s@, p@),
{
    s.starts_with(p)
}

/// Relies on std's `concat` on a slice of strings: `a` followed by `b`.
#[verifier::external_body]
fn concat(a: &str, b: &str) -> (r: String)
    ensures
        r@ == a@ + b@,
{
    [a, b].concat()
}

/// Relies on std's `str::to_lowercase`: the result depends on the text alone,
/// and an empty text stays empty.
#[verifier::external_body]
fn lowercase(s: &str) -> (r: String)
    ensures
        r@ == lower_of(s@),
        s@.len() == 0 ==> r@.len() == 0,
{
    s.to_lowercase()
}

/// Relies on uuid's `Uuid::now_v7`, a time-ordered identifier, written out by
/// its `Display` in the hyphenated form of 36 characters.
#[verifier::external_body]
fn new_task_id() -> (r: String)
    ensures
        r@.len() == 36,
{
    uuid::Uuid::now_v7().to_string()
}

/// Puts `http://` in front of a URL that names neither `http` nor `https`.
pub fn normalize_url(url: String) -> (r: String)
    ensures
        r@ == normalized_url(url@),
{
    if starts_with(url.as_str(), "http://") || starts_with(url.as_str(), "https://") {
        url
    } else {
        concat("http://", url.as_str())
    }
}

/// A fresh identifier and the stored text of state `todo`.
fn fresh_todo() -> (r: (String, String))
    ensures
        r.0@.len() == 36,
        r.1@ == state_text(TaskState::Todo),
{
    (new_task_id(), TaskState::Todo.as_str().to_owned())
}

/// Checks a webhook creation request at `now_ms`: a future RFC 3339 execution
/// time, a non-empty URL and a non-empty body, in that order.
pub fn new_webhook(execution_time: &str, url: String, body: String, now_ms: i64) -> (r: Result<
    Created,
    CreateError,
>)
    ensures
        match checked_execution_time(execution_time@, now_ms as int) {
            Err(e) => r == Err::<Created, CreateError>(CreateError::Time(e)),
            Ok((m, t)) => if url@.len() == 0 {
                r == Err::<Created, CreateError>(CreateError::EmptyUrl)
            } else if body@.len() == 0 {
                r == Err::<Created, CreateError>(CreateError::EmptyBody)
            } else {
                &&& r matches Ok(c)
                &&& c.deadline_ms as int == m
                &&& c.task matches Task::Webhook(w)
                &&& w.id@.len() == 36
                &&& w.state@ == state_text(TaskState::Todo)
                &&& w.execution_time@ == t
                &&& w.url@ == normalized_url(url@)
                &&& w.body@ == body@
            },
        },
{
    let t = match validate_execution_time(execution_time, now_ms) {
        Ok(t) => t,
        Err(e) => return Err(CreateError::Time(e)),
    };
    if url.as_str().is_empty() {
        return Err(CreateError::EmptyUrl);
    }
    let url = normalize_url(url);
    if body.as_str().is_empty() {
        return Err(CreateError::EmptyBody);
    }
    let (id, state) = fresh_todo();
    let w = ApiWebhook { id, state, execution_time: t.text, url, body };
    Ok(Created { task: Task::Webhook(w), deadline_ms: t.millis })
}

/// Checks a hash creation request at `now_ms`: a future RFC 3339 execution
/// time and a non-empty secret, in that order.
pub fn new_hash(execution_time: &str, secret: String, now_ms: i64) -> (r: Result<
    Created,
    CreateError,
>)
    ensures
        match checked_execution_time(execution_time@, now_ms as int) {
            Err(e) => r == Err::<Created, CreateError>(CreateError::Time(e)),
            Ok((m, t)) => if secret@.len() == 0 {
                r == Err::<Created, CreateError>(CreateError::EmptySecret)
            } else {
                &&& r matches Ok(c)
                &&& c.deadline_ms as int == m
                &&& c.task matches Task::Hash(h)
                &&& h.id@.len() == 36
                &&& h.state@ == state_text(TaskState::Todo)
                &&& h.execution_time@ == t
                &&& h.secret@ == secret@
            },
        },
{
    let t = match validate_execution_time(execution_time, now_ms) {
        Ok(t) => t,
        Err(e) => return Err(CreateError::Time(e)),
    };
    if secret.as_str().is_empty() {
        return Err(CreateError::EmptySecret);
    }
    let (id, state) = fresh_todo();
    let h = ApiHash { id, state, execution_time: t.text, secret };
    Ok(Created { task: Task::Hash(h), deadline_ms: t.millis })
}

/// Reads the state a listing asks for, in any letter case.
pub fn parse_state_filter(s: &str) -> (r: Option<TaskState>)
    ensures
        r == state_of_text(lower_of(s@)),
{
    let lower = lowercase(s);
    TaskState::parse(lower.as_str())
}

/// Reads the kind a listing asks for, in any letter case.
pub fn parse_kind_filter(s: &str) -> (r: Option<TaskKind>)
    ensures
        r == kind_of_text(lower_of(s@)),
{
    let lower = lowercase(s);
    if crate::lifecycle::same_text(lower.as_str(), "webhook") {
        Some(TaskKind::Webhook)
    } else if crate::lifecycle::same_text(lower.as_str(), "hash") {
        Some(TaskKind::Hash)
    } else {
        None
    }
}

} // verus!
