//! Queue events: the typed entries of a queue's Redis event stream
//! (`<prefix>:<queue>:events`), how they are decoded, and the decisions of
//! the stream-reading loop.
use vstd::prelude::*;
use crate::connection::RedisConnection;
use crate::json::{is_json_text, json_text_valid};
use crate::resp::{
    RespValue, reply_pairs, reply_text, decode_pairs, value_to_string, last_wins, last_wins_pairs, pair_text, pair_value, get_field, get_field_or_empty, pairs_view,
};
use crate::text::{decimal_digits, lemma_u32_decimal_roundtrip, lemma_u64_decimal_roundtrip, contains_str, spec_contains, parse_u32, parse_u64, spec_parse_u32, spec_parse_u64, str_eq};

verus! {

/// A typed event of a queue's event stream.
#[derive(Debug)]
pub enum QueueEvent {
    /// A job was added.
    Added { job_id: String, name: String },
    /// A job is waiting.
    Waiting { job_id: String, prev: Option<String> },
    /// A job became active.
    Active { job_id: String, prev: Option<String> },
    /// A job completed; `return_value` is the JSON text of its return value.
    Completed { job_id: String, return_value: String },
    /// A job failed.
    Failed { job_id: String, reason: String },
    /// A job was delayed; `delay` is the absolute time (ms since the Unix epoch) when it becomes due.
    Delayed { job_id: String, delay: u64 },
    /// A job reported progress; `data` is the JSON text of the progress value.
    Progress { job_id: String, data: String },
    /// A job stalled.
    Stalled { job_id: String },
    /// A job's priority changed.
    Priority { job_id: String, priority: u32 },
    /// A job was removed.
    Removed { job_id: String, prev: Option<String> },
    /// A job waits for its children.
    WaitingChildren { job_id: String },
    /// The queue was paused.
    Paused,
    /// The queue was resumed.
    Resumed,
    /// The queue was drained.
    Drained,
    /// A custom or unrecognized event, with the fields of the entry, each
    /// key once with its last value.
    Unknown { event: String, fields: Vec<(String, String)> },
}

/// The plain content of a `QueueEvent`.
pub enum QueueEventView {
    Added { job_id: Seq<char>, name: Seq<char> },
    Waiting { job_id: Seq<char>, prev: Option<Seq<char>> },
    Active { job_id: Seq<char>, prev: Option<Seq<char>> },
    Completed { job_id: Seq<char>, return_value: Seq<char> },
    Failed { job_id: Seq<char>, reason: Seq<char> },
    Delayed { job_id: Seq<char>, delay: u64 },
    Progress { job_id: Seq<char>, data: Seq<char> },
    Stalled { job_id: Seq<char> },
    Priority { job_id: Seq<char>, priority: u32 },
    Removed { job_id: Seq<char>, prev: Option<Seq<char>> },
    WaitingChildren { job_id: Seq<char> },
    Paused,
    Resumed,
    Drained,
    Unknown { event: Seq<char>, fields: Seq<(Seq<char>, Seq<char>)> },
}

/// An optional string by its view.
pub open spec fn opt_view(o: Option<String>) -> Option<Seq<char>> {
    match o {
        Some(s) => Some(s@),
        None => None,
    }
}

impl View for QueueEvent {
    type V = QueueEventView;

    open spec fn view(&self) -> QueueEventView {
        match self {
            QueueEvent::Added { job_id, name } => QueueEventView::Added { job_id: job_id@, name: name@ },
            QueueEvent::Waiting { job_id, prev } => QueueEventView::Waiting { job_id: job_id@, prev: opt_view(*prev) },
            QueueEvent::Active { job_id, prev } => QueueEventView::Active { job_id: job_id@, prev: opt_view(*prev) },
            QueueEvent::Completed { job_id, return_value } => QueueEventView::Completed { job_id: job_id@, return_value: return_value@ },
            QueueEvent::Failed { job_id, reason } => QueueEventView::Failed { job_id: job_id@, reason: reason@ },
            QueueEvent::Delayed { job_id, delay } => QueueEventView::Delayed { job_id: job_id@, delay: *delay },
            QueueEvent::Progress { job_id, data } => QueueEventView::Progress { job_id: job_id@, data: data@ },
            QueueEvent::Stalled { job_id } => QueueEventView::Stalled { job_id: job_id@ },
            QueueEvent::Priority { job_id, priority } => QueueEventView::Priority { job_id: job_id@, priority: *priority },
            QueueEvent::Removed { job_id, prev } => QueueEventView::Removed { job_id: job_id@, prev: opt_view(*prev) },
            QueueEvent::WaitingChildren { job_id } => QueueEventView::WaitingChildren { job_id: job_id@ },
            QueueEvent::Paused => QueueEventView::Paused,
            QueueEvent::Resumed => QueueEventView::Resumed,
            QueueEvent::Drained => QueueEventView::Drained,
            QueueEvent::Unknown { event, fields } => QueueEventView::Unknown {
                event: event@,
                fields: pairs_view(fields@),
            },
        }
    }
}

/// The `prev` field of an entry: absent and empty both read as `None`.
pub open spec fn prev_field(fields: Seq<(Seq<char>, Seq<char>)>) -> Option<Seq<char>> {
    match pair_value(fields, "prev"@) {
        Some(p) => if p.len() == 0 {
            None
        } else {
            Some(p)
        },
        None => None,
    }
}

/// A JSON-valued field: its text when it is valid JSON, `null` otherwise
/// (also when absent).
pub open spec fn json_field(fields: Seq<(Seq<char>, Seq<char>)>, key: Seq<char>) -> Seq<char> {
    match pair_value(fields, key) {
        Some(t) => if json_text_valid(t) {
            t
        } else {
            "null"@
        },
        None => "null"@,
    }
}

/// A numeric field: its value when it parses, 0 otherwise.
pub open spec fn u64_field(fields: Seq<(Seq<char>, Seq<char>)>, key: Seq<char>) -> u64 {
    match pair_value(fields, key) {
        Some(t) => match spec_parse_u64(t) {
            Some(n) => n,
            None => 0,
        },
        None => 0,
    }
}

/// A numeric field: its value when it parses as a `u32`, 0 otherwise.
pub open spec fn u32_field(fields: Seq<(Seq<char>, Seq<char>)>, key: Seq<char>) -> u32 {
    match pair_value(fields, key) {
        Some(t) => match spec_parse_u32(t) {
            Some(n) => n,
            None => 0,
        },
        None => 0,
    }
}

/// The event that a stream entry's field list describes. The `event` field
/// names the kind; `jobId` and the kind's own fields fill it in, a missing
/// text field reads as empty; any other kind is kept as `Unknown` with the
/// fields as a map reads them (see `last_wins`: each key once, with its
/// last value).
pub open spec fn event_of_pairs(fields: Seq<(Seq<char>, Seq<char>)>) -> QueueEventView {
    let kind = pair_text(fields, "event"@);
    let job_id = pair_text(fields, "jobId"@);
    if kind == "added"@ {
        QueueEventView::Added { job_id: job_id, name: pair_text(fields, "name"@) }
    } else if kind == "waiting"@ {
        QueueEventView::Waiting { job_id: job_id, prev: prev_field(fields) }
    } else if kind == "active"@ {
        QueueEventView::Active { job_id: job_id, prev: prev_field(fields) }
    } else if kind == "completed"@ {
        QueueEventView::Completed { job_id: job_id, return_value: json_field(fields, "returnvalue"@) }
    } else if kind == "failed"@ {
        QueueEventView::Failed { job_id: job_id, reason: pair_text(fields, "failedReason"@) }
    } else if kind == "delayed"@ {
        QueueEventView::Delayed { job_id: job_id, delay: u64_field(fields, "delay"@) }
    } else if kind == "progress"@ {
        QueueEventView::Progress { job_id: job_id, data: json_field(fields, "data"@) }
    } else if kind == "stalled"@ {
        QueueEventView::Stalled { job_id: job_id }
    } else if kind == "priority"@ {
        QueueEventView::Priority { job_id: job_id, priority: u32_field(fields, "priority"@) }
    } else if kind == "removed"@ {
        QueueEventView::Removed { job_id: job_id, prev: prev_field(fields) }
    } else if kind == "waiting-children"@ {
        QueueEventView::WaitingChildren { job_id: job_id }
    } else if kind == "paused"@ {
        QueueEventView::Paused
    } else if kind == "resumed"@ {
        QueueEventView::Resumed
    } else if kind == "drained"@ {
        QueueEventView::Drained
    } else {
        QueueEventView::Unknown { event: kind, fields: last_wins(fields) }
    }
}

/// An `added` entry gives the job's id and name from its `jobId` and
/// `name` fields.
pub proof fn lemma_added_event(f: Seq<(Seq<char>, Seq<char>)>, j: Seq<char>, name: Seq<char>)
    requires
        pair_value(f, "event"@) == Some("added"@),
        pair_value(f, "jobId"@) == Some(j),
        pair_value(f, "name"@) == Some(name),
    ensures
        event_of_pairs(f) == (QueueEventView::Added { job_id: j, name: name }),
{
    reveal_strlit("added");
}

/// A `waiting` entry gives the job's id from `jobId` and its previous state
/// from a non-empty `prev` field.
pub proof fn lemma_waiting_event(f: Seq<(Seq<char>, Seq<char>)>, j: Seq<char>, prev: Seq<char>)
    requires
        pair_value(f, "event"@) == Some("waiting"@),
        pair_value(f, "jobId"@) == Some(j),
        pair_value(f, "prev"@) == Some(prev),
        prev.len() > 0,
    ensures
        event_of_pairs(f) == (QueueEventView::Waiting { job_id: j, prev: Some(prev) }),
{
    reveal_strlit("added");
    reveal_strlit("waiting");
    assert("waiting"@.len() != "added"@.len());
}

/// A `active` entry gives the job's id from `jobId` and its previous state
/// from a non-empty `prev` field.
pub proof fn lemma_active_event(f: Seq<(Seq<char>, Seq<char>)>, j: Seq<char>, prev: Seq<char>)
    requires
        pair_value(f, "event"@) == Some("active"@),
        pair_value(f, "jobId"@) == Some(j),
        pair_value(f, "prev"@) == Some(prev),
        prev.len() > 0,
    ensures
        event_of_pairs(f) == (QueueEventView::Active { job_id: j, prev: Some(prev) }),
{
    reveal_strlit("added");
    reveal_strlit("waiting");
    reveal_strlit("active");
    assert("active"@.len() != "added"@.len());
    assert("active"@.len() != "waiting"@.len());
}

/// A `removed` entry gives the job's id from `jobId` and its previous state
/// from a non-empty `prev` field.
pub proof fn lemma_removed_event(f: Seq<(Seq<char>, Seq<char>)>, j: Seq<char>, prev: Seq<char>)
    requires
        pair_value(f, "event"@) == Some("removed"@),
        pair_value(f, "jobId"@) == Some(j),
        pair_value(f, "prev"@) == Some(prev),
        prev.len() > 0,
    ensures
        event_of_pairs(f) == (QueueEventView::Removed { job_id: j, prev: Some(prev) }),
{
    reveal_strlit("added");
    reveal_strlit("waiting");
    reveal_strlit("active");
    reveal_strlit("completed");
    reveal_strlit("failed");
    reveal_strlit("delayed");
    reveal_strlit("progress");
    reveal_strlit("stalled");
    reveal_strlit("priority");
    reveal_strlit("removed");
    assert("removed"@.len() != "added"@.len());
    assert("removed"@[0] != "waiting"@[0]);
    assert("removed"@.len() != "active"@.len());
    assert("removed"@.len() != "completed"@.len());
    assert("removed"@.len() != "failed"@.len());
    assert("removed"@[0] != "delayed"@[0]);
    assert("removed"@.len() != "progress"@.len());
    assert("removed"@[0] != "stalled"@[0]);
    assert("removed"@.len() != "priority"@.len());
}

/// A `completed` entry gives the job's id and, when it is valid JSON, the
/// text of its `returnvalue` field.
pub proof fn lemma_completed_event(f: Seq<(Seq<char>, Seq<char>)>, j: Seq<char>, t: Seq<char>)
    requires
        pair_value(f, "event"@) == Some("completed"@),
        pair_value(f, "jobId"@) == Some(j),
        pair_value(f, "returnvalue"@) == Some(t),
        json_text_valid(t),
    ensures
        event_of_pairs(f) == (QueueEventView::Completed { job_id: j, return_value: t }),
{
    reveal_strlit("added");
    reveal_strlit("waiting");
    reveal_strlit("active");
    reveal_strlit("completed");
    assert("completed"@.len() != "added"@.len());
    assert("completed"@.len() != "waiting"@.len());
    assert("completed"@.len() != "active"@.len());
}

/// A `failed` entry gives the job's id and the reason in `failedReason`.
pub proof fn lemma_failed_event(f: Seq<(Seq<char>, Seq<char>)>, j: Seq<char>, reason: Seq<char>)
    requires
        pair_value(f, "event"@) == Some("failed"@),
        pair_value(f, "jobId"@) == Some(j),
        pair_value(f, "failedReason"@) == Some(reason),
    ensures
        event_of_pairs(f) == (QueueEventView::Failed { job_id: j, reason: reason }),
{
    reveal_strlit("added");
    reveal_strlit("waiting");
    reveal_strlit("active");
    reveal_strlit("completed");
    reveal_strlit("failed");
    assert("failed"@.len() != "added"@.len());
    assert("failed"@.len() != "waiting"@.len());
    assert("failed"@[0] != "active"@[0]);
    assert("failed"@.len() != "completed"@.len());
}

/// A `delayed` entry whose `delay` field is the decimal text of `d` gives
/// the delay `d`.
pub proof fn lemma_delayed_event(f: Seq<(Seq<char>, Seq<char>)>, j: Seq<char>, d: u64)
    requires
        pair_value(f, "event"@) == Some("delayed"@),
        pair_value(f, "jobId"@) == Some(j),
        pair_value(f, "delay"@) == Some(decimal_digits(d as nat)),
    ensures
        event_of_pairs(f) == (QueueEventView::Delayed { job_id: j, delay: d }),
{
    lemma_u64_decimal_roundtrip(d);
    reveal_strlit("added");
    reveal_strlit("waiting");
    reveal_strlit("active");
    reveal_strlit("completed");
    reveal_strlit("failed");
    reveal_strlit("delayed");
    assert("delayed"@.len() != "added"@.len());
    assert("delayed"@[0] != "waiting"@[0]);
    assert("delayed"@.len() != "active"@.len());
    assert("delayed"@.len() != "completed"@.len());
    assert("delayed"@.len() != "failed"@.len());
}

/// A `progress` entry gives the job's id and, when it is valid JSON, the
/// text of its `data` field.
pub proof fn lemma_progress_event(f: Seq<(Seq<char>, Seq<char>)>, j: Seq<char>, t: Seq<char>)
    requires
        pair_value(f, "event"@) == Some("progress"@),
        pair_value(f, "jobId"@) == Some(j),
        pair_value(f, "data"@) == Some(t),
        json_text_valid(t),
    ensures
        event_of_pairs(f) == (QueueEventView::Progress { job_id: j, data: t }),
{
    reveal_strlit("added");
    reveal_strlit("waiting");
    reveal_strlit("active");
    reveal_strlit("completed");
    reveal_strlit("failed");
    reveal_strlit("delayed");
    reveal_strlit("progress");
    assert("progress"@.len() != "added"@.len());
    assert("progress"@.len() != "waiting"@.len());
    assert("progress"@.len() != "active"@.len());
    assert("progress"@.len() != "completed"@.len());
    assert("progress"@.len() != "failed"@.len());
    assert("progress"@.len() != "delayed"@.len());
}

/// A `stalled` entry gives the job's id.
pub proof fn lemma_stalled_event(f: Seq<(Seq<char>, Seq<char>)>, j: Seq<char>)
    requires
        pair_value(f, "event"@) == Some("stalled"@),
        pair_value(f, "jobId"@) == Some(j),
    ensures
        event_of_pairs(f) == (QueueEventView::Stalled { job_id: j }),
{
    reveal_strlit("added");
    reveal_strlit("waiting");
    reveal_strlit("active");
    reveal_strlit("completed");
    reveal_strlit("failed");
    reveal_strlit("delayed");
    reveal_strlit("progress");
    reveal_strlit("stalled");
    assert("stalled"@.len() != "added"@.len());
    assert("stalled"@[0] != "waiting"@[0]);
    assert("stalled"@.len() != "active"@.len());
    assert("stalled"@.len() != "completed"@.len());
    assert("stalled"@.len() != "failed"@.len());
    assert("stalled"@[0] != "delayed"@[0]);
    assert("stalled"@.len() != "progress"@.len());
}

/// A `priority` entry whose `priority` field is the decimal text of `n`
/// gives the priority `n`.
pub proof fn lemma_priority_event(f: Seq<(Seq<char>, Seq<char>)>, j: Seq<char>, n: u32)
    requires
        pair_value(f, "event"@) == Some("priority"@),
        pair_value(f, "jobId"@) == Some(j),
        pair_value(f, "priority"@) == Some(decimal_digits(n as nat)),
    ensures
        event_of_pairs(f) == (QueueEventView::Priority { job_id: j, priority: n }),
{
    lemma_u32_decimal_roundtrip(n);
    reveal_strlit("added");
    reveal_strlit("waiting");
    reveal_strlit("active");
    reveal_strlit("completed");
    reveal_strlit("failed");
    reveal_strlit("delayed");
    reveal_strlit("progress");
    reveal_strlit("stalled");
    reveal_strlit("priority");
    assert("priority"@.len() != "added"@.len());
    assert("priority"@.len() != "waiting"@.len());
    assert("priority"@.len() != "active"@.len());
    assert("priority"@.len() != "completed"@.len());
    assert("priority"@.len() != "failed"@.len());
    assert("priority"@.len() != "delayed"@.len());
    assert("priority"@[2] != "progress"@[2]);
    assert("priority"@.len() != "stalled"@.len());
}

/// A `waiting-children` entry gives the job's id.
pub proof fn lemma_waiting_children_event(f: Seq<(Seq<char>, Seq<char>)>, j: Seq<char>)
    requires
        pair_value(f, "event"@) == Some("waiting-children"@),
        pair_value(f, "jobId"@) == Some(j),
    ensures
        event_of_pairs(f) == (QueueEventView::WaitingChildren { job_id: j }),
{
    reveal_strlit("added");
    reveal_strlit("waiting");
    reveal_strlit("active");
    reveal_strlit("completed");
    reveal_strlit("failed");
    reveal_strlit("delayed");
    reveal_strlit("progress");
    reveal_strlit("stalled");
    reveal_strlit("priority");
    reveal_strlit("removed");
    reveal_strlit("waiting-children");
    assert("waiting-children"@.len() != "added"@.len());
    assert("waiting-children"@.len() != "waiting"@.len());
    assert("waiting-children"@.len() != "active"@.len());
    assert("waiting-children"@.len() != "completed"@.len());
    assert("waiting-children"@.len() != "failed"@.len());
    assert("waiting-children"@.len() != "delayed"@.len());
    assert("waiting-children"@.len() != "progress"@.len());
    assert("waiting-children"@.len() != "stalled"@.len());
    assert("waiting-children"@.len() != "priority"@.len());
    assert("waiting-children"@.len() != "removed"@.len());
}

/// A `paused` entry is the queue pausing.
pub proof fn lemma_paused_event(f: Seq<(Seq<char>, Seq<char>)>)
    requires
        pair_value(f, "event"@) == Some("paused"@),
    ensures
        event_of_pairs(f) == (QueueEventView::Paused),
{
    reveal_strlit("added");
    reveal_strlit("waiting");
    reveal_strlit("active");
    reveal_strlit("completed");
    reveal_strlit("failed");
    reveal_strlit("delayed");
    reveal_strlit("progress");
    reveal_strlit("stalled");
    reveal_strlit("priority");
    reveal_strlit("removed");
    reveal_strlit("waiting-children");
    reveal_strlit("paused");
    assert("paused"@.len() != "added"@.len());
    assert("paused"@.len() != "waiting"@.len());
    assert("paused"@[0] != "active"@[0]);
    assert("paused"@.len() != "completed"@.len());
    assert("paused"@[0] != "failed"@[0]);
    assert("paused"@.len() != "delayed"@.len());
    assert("paused"@.len() != "progress"@.len());
    assert("paused"@.len() != "stalled"@.len());
    assert("paused"@.len() != "priority"@.len());
    assert("paused"@.len() != "removed"@.len());
    assert("paused"@.len() != "waiting-children"@.len());
}

/// A `resumed` entry is the queue resuming.
pub proof fn lemma_resumed_event(f: Seq<(Seq<char>, Seq<char>)>)
    requires
        pair_value(f, "event"@) == Some("resumed"@),
    ensures
        event_of_pairs(f) == (QueueEventView::Resumed),
{
    reveal_strlit("added");
    reveal_strlit("waiting");
    reveal_strlit("active");
    reveal_strlit("completed");
    reveal_strlit("failed");
    reveal_strlit("delayed");
    reveal_strlit("progress");
    reveal_strlit("stalled");
    reveal_strlit("priority");
    reveal_strlit("removed");
    reveal_strlit("waiting-children");
    reveal_strlit("paused");
    reveal_strlit("resumed");
    assert("resumed"@.len() != "added"@.len());
    assert("resumed"@[0] != "waiting"@[0]);
    assert("resumed"@.len() != "active"@.len());
    assert("resumed"@.len() != "completed"@.len());
    assert("resumed"@.len() != "failed"@.len());
    assert("resumed"@[0] != "delayed"@[0]);
    assert("resumed"@.len() != "progress"@.len());
    assert("resumed"@[0] != "stalled"@[0]);
    assert("resumed"@.len() != "priority"@.len());
    assert("resumed"@[2] != "removed"@[2]);
    assert("resumed"@.len() != "waiting-children"@.len());
    assert("resumed"@.len() != "paused"@.len());
}

/// A `drained` entry is the queue drained.
pub proof fn lemma_drained_event(f: Seq<(Seq<char>, Seq<char>)>)
    requires
        pair_value(f, "event"@) == Some("drained"@),
    ensures
        event_of_pairs(f) == (QueueEventView::Drained),
{
    reveal_strlit("added");
    reveal_strlit("waiting");
    reveal_strlit("active");
    reveal_strlit("completed");
    reveal_strlit("failed");
    reveal_strlit("delayed");
    reveal_strlit("progress");
    reveal_strlit("stalled");
    reveal_strlit("priority");
    reveal_strlit("removed");
    reveal_strlit("waiting-children");
    reveal_strlit("paused");
    reveal_strlit("resumed");
    reveal_strlit("drained");
    assert("drained"@.len() != "added"@.len());
    assert("drained"@[0] != "waiting"@[0]);
    assert("drained"@.len() != "active"@.len());
    assert("drained"@.len() != "completed"@.len());
    assert("drained"@.len() != "failed"@.len());
    assert("drained"@[1] != "delayed"@[1]);
    assert("drained"@.len() != "progress"@.len());
    assert("drained"@[0] != "stalled"@[0]);
    assert("drained"@.len() != "priority"@.len());
    assert("drained"@[0] != "removed"@[0]);
    assert("drained"@.len() != "waiting-children"@.len());
    assert("drained"@.len() != "paused"@.len());
    assert("drained"@[0] != "resumed"@[0]);
}

/// The kinds of event that the stream names.
pub open spec fn event_kinds() -> Seq<Seq<char>> {
    seq!["added"@, "waiting"@, "active"@, "completed"@, "failed"@, "delayed"@, "progress"@, "stalled"@, "priority"@, "removed"@, "waiting-children"@, "paused"@, "resumed"@, "drained"@]
}

/// An entry of any other kind, or without kind, is kept as `Unknown`, with
/// its kind (empty when absent) and its fields as a map reads them.
pub proof fn lemma_unknown_event(f: Seq<(Seq<char>, Seq<char>)>)
    requires
        !event_kinds().contains(pair_text(f, "event"@)),
    ensures
        event_of_pairs(f) == (QueueEventView::Unknown { event: pair_text(f, "event"@), fields: last_wins(f) }),
{
    reveal_strlit("added");
    reveal_strlit("waiting");
    reveal_strlit("active");
    reveal_strlit("completed");
    reveal_strlit("failed");
    reveal_strlit("delayed");
    reveal_strlit("progress");
    reveal_strlit("stalled");
    reveal_strlit("priority");
    reveal_strlit("removed");
    reveal_strlit("waiting-children");
    reveal_strlit("paused");
    reveal_strlit("resumed");
    reveal_strlit("drained");
    let names = event_kinds();
    assert(names[0] == "added"@);
    assert(names[1] == "waiting"@);
    assert(names[2] == "active"@);
    assert(names[3] == "completed"@);
    assert(names[4] == "failed"@);
    assert(names[5] == "delayed"@);
    assert(names[6] == "progress"@);
    assert(names[7] == "stalled"@);
    assert(names[8] == "priority"@);
    assert(names[9] == "removed"@);
    assert(names[10] == "waiting-children"@);
    assert(names[11] == "paused"@);
    assert(names[12] == "resumed"@);
    assert(names[13] == "drained"@);
    let k = pair_text(f, "event"@);
    assert forall|i: int| 0 <= i < names.len() implies names[i] != k by {
        if names[i] == k {
            assert(names.contains(k));
        }
    }
}

/// A `waiting`, `active` or `removed` entry whose `prev` field is absent or
/// empty has no previous state; a missing `jobId` reads as empty.
pub proof fn lemma_event_missing_fields(f: Seq<(Seq<char>, Seq<char>)>)
    requires
        pair_value(f, "prev"@) matches Some(p) ==> p.len() == 0,
        pair_value(f, "jobId"@) is None,
    ensures
        pair_value(f, "event"@) == Some("waiting"@) ==> event_of_pairs(f) == (QueueEventView::Waiting { job_id: Seq::empty(), prev: None }),
        pair_value(f, "event"@) == Some("active"@) ==> event_of_pairs(f) == (QueueEventView::Active { job_id: Seq::empty(), prev: None }),
        pair_value(f, "event"@) == Some("removed"@) ==> event_of_pairs(f) == (QueueEventView::Removed { job_id: Seq::empty(), prev: None }),
{
    reveal_strlit("added");
    reveal_strlit("waiting");
    reveal_strlit("active");
    reveal_strlit("completed");
    reveal_strlit("failed");
    reveal_strlit("delayed");
    reveal_strlit("progress");
    reveal_strlit("stalled");
    reveal_strlit("priority");
    reveal_strlit("removed");
    if pair_value(f, "event"@) == Some("waiting"@) {
        assert("waiting"@.len() != "added"@.len());
    }
    if pair_value(f, "event"@) == Some("active"@) {
        assert("active"@.len() != "added"@.len());
        assert("active"@.len() != "waiting"@.len());
    }
    if pair_value(f, "event"@) == Some("removed"@) {
        assert("removed"@.len() != "added"@.len());
        assert("removed"@[0] != "waiting"@[0]);
        assert("removed"@.len() != "active"@.len());
        assert("removed"@.len() != "completed"@.len());
        assert("removed"@.len() != "failed"@.len());
        assert("removed"@[0] != "delayed"@[0]);
        assert("removed"@.len() != "progress"@.len());
        assert("removed"@[0] != "stalled"@[0]);
        assert("removed"@.len() != "priority"@.len());
    }
}

/// The `prev` field of an entry, `None` when absent or empty.
fn read_prev(fields: &Vec<(String, String)>) -> (r: Option<String>)
    ensures
        opt_view(r) == prev_field(pairs_view(fields@)),
{
    match get_field(fields, "prev") {
        Some(p) => if p.unicode_len() == 0 {
            None
        } else {
            Some(p)
        },
        None => None,
    }
}

/// A JSON-valued field as text, `null` when absent or not valid JSON.
fn read_json(fields: &Vec<(String, String)>, key: &str) -> (r: String)
    ensures
        r@ == json_field(pairs_view(fields@), key@),
{
    match get_field(fields, key) {
        Some(t) => if is_json_text(t.as_str()) {
            t
        } else {
            "null".to_owned()
        },
        None => "null".to_owned(),
    }
}

/// A `u64` field, 0 when absent or not a number.
fn read_u64(fields: &Vec<(String, String)>, key: &str) -> (r: u64)
    ensures
        r == u64_field(pairs_view(fields@), key@),
{
    match get_field(fields, key) {
        Some(t) => match parse_u64(t.as_str()) {
            Some(n) => n,
            None => 0,
        },
        None => 0,
    }
}

/// A `u32` field, 0 when absent or not a number.
fn read_u32(fields: &Vec<(String, String)>, key: &str) -> (r: u32)
    ensures
        r == u32_field(pairs_view(fields@), key@),
{
    match get_field(fields, key) {
        Some(t) => match parse_u32(t.as_str()) {
            Some(n) => n,
            None => 0,
        },
        None => 0,
    }
}

impl QueueEvent {
    /// Decodes a stream entry's field list (see `event_of_pairs`).
    pub fn parse(fields: &Vec<(String, String)>) -> (r: QueueEvent)
        ensures
            r@ == event_of_pairs(pairs_view(fields@)),
    {
        let kind = get_field_or_empty(fields, "event");
        let k = kind.as_str();
        if str_eq(k, "added") {
            QueueEvent::Added { job_id: get_field_or_empty(fields, "jobId"), name: get_field_or_empty(fields, "name") }
        } else if str_eq(k, "waiting") {
            QueueEvent::Waiting { job_id: get_field_or_empty(fields, "jobId"), prev: read_prev(fields) }
        } else if str_eq(k, "active") {
            QueueEvent::Active { job_id: get_field_or_empty(fields, "jobId"), prev: read_prev(fields) }
        } else if str_eq(k, "completed") {
            QueueEvent::Completed { job_id: get_field_or_empty(fields, "jobId"), return_value: read_json(fields, "returnvalue") }
        } else if str_eq(k, "failed") {
            QueueEvent::Failed { job_id: get_field_or_empty(fields, "jobId"), reason: get_field_or_empty(fields, "failedReason") }
        } else if str_eq(k, "delayed") {
            QueueEvent::Delayed { job_id: get_field_or_empty(fields, "jobId"), delay: read_u64(fields, "delay") }
        } else if str_eq(k, "progress") {
            QueueEvent::Progress { job_id: get_field_or_empty(fields, "jobId"), data: read_json(fields, "data") }
        } else if str_eq(k, "stalled") {
            QueueEvent::Stalled { job_id: get_field_or_empty(fields, "jobId") }
        } else if str_eq(k, "priority") {
            QueueEvent::Priority { job_id: get_field_or_empty(fields, "jobId"), priority: read_u32(fields, "priority") }
        } else if str_eq(k, "removed") {
            QueueEvent::Removed { job_id: get_field_or_empty(fields, "jobId"), prev: read_prev(fields) }
        } else if str_eq(k, "waiting-children") {
            QueueEvent::WaitingChildren { job_id: get_field_or_empty(fields, "jobId") }
        } else if str_eq(k, "paused") {
            QueueEvent::Paused
        } else if str_eq(k, "resumed") {
            QueueEvent::Resumed
        } else if str_eq(k, "drained") {
            QueueEvent::Drained
        } else {
            QueueEvent::Unknown { event: kind, fields: last_wins_pairs(fields) }
        }
    }
}

/// A decoded stream entry: its id and its field list.
pub open spec fn entry_of(v: RespValue) -> Option<(Seq<char>, Seq<(Seq<char>, Seq<char>)>)> {
    match v {
        RespValue::Array(parts) => if parts@.len() >= 2 {
            match reply_text(parts@[0]) {
                Some(id) => match parts@[1] {
                    RespValue::Array(fv) => Some((id, reply_pairs(fv@))),
                    _ => None,
                },
                None => None,
            }
        } else {
            None
        },
        _ => None,
    }
}

/// The decodable entries of a list of entries, in order; entries of another
/// shape are skipped.
pub open spec fn entries_of(es: Seq<RespValue>) -> Seq<(Seq<char>, Seq<(Seq<char>, Seq<char>)>)>
    decreases es.len(),
{
    if es.len() == 0 {
        Seq::empty()
    } else {
        entries_of(es.drop_last()) + match entry_of(es.last()) {
            Some(e) => seq![e],
            None => Seq::empty(),
        }
    }
}

/// The entries of one stream of an `XREAD` reply (`[key, [entries...]]`).
pub open spec fn stream_entries(v: RespValue) -> Seq<(Seq<char>, Seq<(Seq<char>, Seq<char>)>)> {
    match v {
        RespValue::Array(parts) => if parts@.len() >= 2 {
            match parts@[1] {
                RespValue::Array(es) => entries_of(es@),
                _ => Seq::empty(),
            }
        } else {
            Seq::empty()
        },
        _ => Seq::empty(),
    }
}

/// The entries of several streams, stream by stream.
pub open spec fn streams_entries(ss: Seq<RespValue>) -> Seq<(Seq<char>, Seq<(Seq<char>, Seq<char>)>)>
    decreases ss.len(),
{
    if ss.len() == 0 {
        Seq::empty()
    } else {
        streams_entries(ss.drop_last()) + stream_entries(ss.last())
    }
}

/// The entries of an `XREAD` reply, in order; nothing for any reply that is
/// not an array of streams.
pub open spec fn xread_entries(v: RespValue) -> Seq<(Seq<char>, Seq<(Seq<char>, Seq<char>)>)> {
    match v {
        RespValue::Array(ss) => streams_entries(ss@),
        _ => Seq::empty(),
    }
}

/// The views of decoded entries.
pub open spec fn entries_view(r: Seq<(String, Vec<(String, String)>)>) -> Seq<(Seq<char>, Seq<(Seq<char>, Seq<char>)>)> {
    Seq::new(r.len(), |i: int| (r[i].0@, pairs_view(r[i].1@)))
}

fn decode_entry(entry: &RespValue) -> (r: Option<(String, Vec<(String, String)>)>)
    ensures
        match r {
            Some(e) => entry_of(*entry) == Some((e.0@, pairs_view(e.1@))),
            None => entry_of(*entry) is None,
        },
{
    match entry {
        RespValue::Array(parts) => {
            if parts.len() < 2 {
                return None;
            }
            let id = match value_to_string(&parts[0]) {
                Some(id) => id,
                None => {
                    return None;
                },
            };
            match &parts[1] {
                RespValue::Array(fv) => {
                    let fields = decode_pairs(fv, 0);
                    assert(fv@.skip(0) =~= fv@);
                    Some((id, fields))
                },
                _ => None,
            }
        },
        _ => None,
    }
}

fn decode_stream(stream: &RespValue, out: &mut Vec<(String, Vec<(String, String)>)>)
    ensures
        entries_view(final(out)@) == entries_view(old(out)@) + stream_entries(*stream),
{
    let ghost start = entries_view(out@);
    match stream {
        RespValue::Array(parts) => {
            if parts.len() < 2 {
                assert(entries_view(out@) =~= start + Seq::empty());
                return ;
            }
            match &parts[1] {
                RespValue::Array(es) => {
                    let mut i: usize = 0;
                    while i < es.len()
                        invariant
                            i <= es@.len(),
                            entries_view(out@) == start + entries_of(es@.take(i as int)),
                        decreases es@.len() - i,
                    {
                        assert(es@.take(i + 1).drop_last() =~= es@.take(i as int));
                        let ghost before = out@;
                        match decode_entry(&es[i]) {
                            Some(e) => {
                                out.push(e);
                                assert(entries_view(out@) =~= entries_view(before) + seq![
                                    (out@.last().0@, pairs_view(out@.last().1@)),
                                ]);
                            },
                            None => {},
                        }
                        i = i + 1;
                        assert(entries_view(out@) =~= start + entries_of(es@.take(i as int)));
                    }
                    assert(es@.take(i as int) =~= es@);
                },
                _ => {
                    assert(entries_view(out@) =~= start + Seq::empty());
                },
            }
        },
        _ => {
            assert(entries_view(out@) =~= start + Seq::empty());
        },
    }
}

/// Decodes an `XREAD` reply into its entries, each an id with its field
/// list (see `xread_entries`).
pub fn parse_xread_response(value: &RespValue) -> (r: Vec<(String, Vec<(String, String)>)>)
    ensures
        entries_view(r@) == xread_entries(*value),
{
    let mut results: Vec<(String, Vec<(String, String)>)> = Vec::new();
    match value {
        RespValue::Array(streams) => {
            let mut i: usize = 0;
            while i < streams.len()
                invariant
                    i <= streams@.len(),
                    entries_view(results@) == streams_entries(streams@.take(i as int)),
                decreases streams@.len() - i,
            {
                assert(streams@.take(i + 1).drop_last() =~= streams@.take(i as int));
                decode_stream(&streams[i], &mut results);
                i = i + 1;
            }
            assert(streams@.take(i as int) =~= streams@);
        },
        _ => {
            assert(entries_view(results@) =~= Seq::empty());
        },
    }
    results
}

/// What the stream-reading loop does with an `XREAD` reply: it delivers
/// the event of every entry with the entry's id, in stream order, and goes
/// on reading after the id of the last entry (after `last_id` again when
/// there was none, which includes the nil reply of a timed-out read).
pub fn on_xread_reply(last_id: &String, reply: &RespValue) -> (r: (String, Vec<(QueueEvent, String)>))
    ensures
        ({
            let es = xread_entries(*reply);
            &&& r.1@.len() == es.len()
            &&& forall|i: int|
                0 <= i < es.len() ==> #[trigger] r.1@[i].1@ == es[i].0 && r.1@[i].0@
                    == event_of_pairs(es[i].1)
            &&& r.0@ == if es.len() == 0 {
                last_id@
            } else {
                es.last().0
            }
        }),
{
    let entries = parse_xread_response(reply);
    let ghost es = entries_view(entries@);
    let mut events: Vec<(QueueEvent, String)> = Vec::new();
    let mut last = last_id.clone();
    let mut i: usize = 0;
    while i < entries.len()
        invariant
            i <= entries@.len(),
            es == entries_view(entries@),
            events@.len() == i,
            forall|j: int|
                0 <= j < i ==> #[trigger] events@[j].1@ == es[j].0 && events@[j].0@
                    == event_of_pairs(es[j].1),
            last@ == if i == 0 {
                last_id@
            } else {
                es[i - 1].0
            },
        decreases entries@.len() - i,
    {
        let event = QueueEvent::parse(&entries[i].1);
        events.push((event, entries[i].0.clone()));
        last = entries[i].0.clone();
        assert(pairs_view(entries@[i as int].1@) == es[i as int].1);
        i = i + 1;
    }
    (last, events)
}

/// What the stream-reading loop does after a failed read.
#[derive(Debug)]
pub enum XreadErrorStep {
    /// Read again at once: the failure was only an empty reply that the
    /// client could not decode.
    Retry,
    /// Log the error and wait a second before reading again (or stop when
    /// shutdown is signalled meanwhile).
    BackOff,
}

/// Decides what follows a failed read from the error's message: retry at
/// once when it mentions `response was nil` or `not compatible`, back off
/// otherwise.
pub fn on_xread_error(message: &str) -> (r: XreadErrorStep)
    ensures
        (r is Retry) == (spec_contains(message@, "response was nil"@) || spec_contains(
            message@,
            "not compatible"@,
        )),
{
    if contains_str(message, "response was nil") || contains_str(message, "not compatible") {
        XreadErrorStep::Retry
    } else {
        XreadErrorStep::BackOff
    }
}

/// Builder of a queue event subscriber.
#[derive(Debug)]
pub struct QueueEventsBuilder {
    name: String,
    connection: RedisConnection,
    prefix: String,
    last_event_id: String,
    blocking_timeout: u64,
    capacity: usize,
}

impl QueueEventsBuilder {
    /// The queue name.
    pub closed spec fn spec_name(self) -> Seq<char> {
        self.name@
    }

    /// The connection settings.
    pub closed spec fn spec_connection(self) -> RedisConnection {
        self.connection
    }

    /// The key prefix.
    pub closed spec fn spec_prefix(self) -> Seq<char> {
        self.prefix@
    }

    /// The stream id after which reading starts.
    pub closed spec fn spec_last_event_id(self) -> Seq<char> {
        self.last_event_id@
    }

    /// The `XREAD BLOCK` timeout, in milliseconds.
    pub closed spec fn spec_blocking_timeout(self) -> u64 {
        self.blocking_timeout
    }

    /// The capacity of the delivery channel.
    pub closed spec fn spec_capacity(self) -> usize {
        self.capacity
    }

    /// A builder for the events of queue `name`: the local server, prefix
    /// `bull`, reading only events newer than now (`$`), blocking reads of
    /// 10 s and a channel of 256 events.
    pub fn new(name: &str) -> (r: Self)
        ensures
            r.spec_name() == name@,
            r.spec_connection().spec_url() == "redis://127.0.0.1:6379"@,
            r.spec_prefix() == "bull"@,
            r.spec_last_event_id() == "$"@,
            r.spec_blocking_timeout() == 10000,
            r.spec_capacity() == 256,
    {
        QueueEventsBuilder {
            name: name.to_owned(),
            connection: RedisConnection::default(),
            prefix: "bull".to_owned(),
            last_event_id: "$".to_owned(),
            blocking_timeout: 10000,
            capacity: 256,
        }
    }

    /// Sets the connection settings.
    pub fn connection(self, conn: RedisConnection) -> (r: Self)
        ensures
            r.spec_connection() == conn,
            r.spec_name() == self.spec_name(),
            r.spec_prefix() == self.spec_prefix(),
            r.spec_last_event_id() == self.spec_last_event_id(),
            r.spec_blocking_timeout() == self.spec_blocking_timeout(),
            r.spec_capacity() == self.spec_capacity(),
    {
        QueueEventsBuilder { connection: conn, ..self }
    }

    /// Sets the key prefix.
    pub fn prefix(self, prefix: &str) -> (r: Self)
        ensures
            r.spec_prefix() == prefix@,
            r.spec_name() == self.spec_name(),
            r.spec_connection() == self.spec_connection(),
            r.spec_last_event_id() == self.spec_last_event_id(),
            r.spec_blocking_timeout() == self.spec_blocking_timeout(),
            r.spec_capacity() == self.spec_capacity(),
    {
        QueueEventsBuilder { prefix: prefix.to_owned(), ..self }
    }

    /// Starts reading after stream id `id` instead of `$` (the newest).
    pub fn last_event_id(self, id: &str) -> (r: Self)
        ensures
            r.spec_last_event_id() == id@,
            r.spec_name() == self.spec_name(),
            r.spec_connection() == self.spec_connection(),
            r.spec_prefix() == self.spec_prefix(),
            r.spec_blocking_timeout() == self.spec_blocking_timeout(),
            r.spec_capacity() == self.spec_capacity(),
    {
        QueueEventsBuilder { last_event_id: id.to_owned(), ..self }
    }

    /// Sets the `XREAD BLOCK` timeout, in milliseconds.
    pub fn blocking_timeout(self, ms: u64) -> (r: Self)
        ensures
            r.spec_blocking_timeout() == ms,
            r.spec_name() == self.spec_name(),
            r.spec_connection() == self.spec_connection(),
            r.spec_prefix() == self.spec_prefix(),
            r.spec_last_event_id() == self.spec_last_event_id(),
            r.spec_capacity() == self.spec_capacity(),
    {
        QueueEventsBuilder { blocking_timeout: ms, ..self }
    }

    /// Sets the capacity of the delivery channel.
    pub fn capacity(self, cap: usize) -> (r: Self)
        ensures
            r.spec_capacity() == cap,
            r.spec_name() == self.spec_name(),
            r.spec_connection() == self.spec_connection(),
            r.spec_prefix() == self.spec_prefix(),
            r.spec_last_event_id() == self.spec_last_event_id(),
            r.spec_blocking_timeout() == self.spec_blocking_timeout(),
    {
        QueueEventsBuilder { capacity: cap, ..self }
    }

    /// The queue name.
    pub fn get_name(&self) -> (r: &str)
        ensures
            r@ == self.spec_name(),
    {
        self.name.as_str()
    }

    /// The connection settings.
    pub fn get_connection(&self) -> (r: &RedisConnection)
        ensures
            *r == self.spec_connection(),
    {
        &self.connection
    }

    /// The key prefix.
    pub fn get_prefix(&self) -> (r: &str)
        ensures
            r@ == self.spec_prefix(),
    {
        self.prefix.as_str()
    }

    /// The stream id after which reading starts.
    pub fn get_last_event_id(&self) -> (r: &str)
        ensures
            r@ == self.spec_last_event_id(),
    {
        self.last_event_id.as_str()
    }

    /// The `XREAD BLOCK` timeout, in milliseconds.
    pub fn get_blocking_timeout(&self) -> (r: u64)
        ensures
            r == self.spec_blocking_timeout(),
    {
        self.blocking_timeout
    }

    /// The capacity of the delivery channel.
    pub fn get_capacity(&self) -> (r: usize)
        ensures
            r == self.spec_capacity(),
    {
        self.capacity
    }
}

} // verus!
