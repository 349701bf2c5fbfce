//! Observations: the reported outcome of processing one path, delivered
//! to the surrounding application's notification layer.

use crate::classify::IndexOperation;
use vstd::prelude::*;
use vstd::string::*;

verus! {

/// One reported outcome: what happened, to which path, when, whether it
/// succeeded, and a human-readable message.
#[derive(Debug, Clone)]
pub struct FileWatcherEvent {
    pub event_type: String,
    pub file_path: String,
    pub timestamp: u64,
    pub success: bool,
    pub message: String,
}

/// The event type reported for an operation: an upsert counts as
/// `created` when the file still exists and `modified` otherwise (a
/// best-effort heuristic), a delete as `deleted`.
pub open spec fn event_type_spec(op: IndexOperation, exists_now: bool) -> Seq<char> {
    match op {
        IndexOperation::Upsert => if exists_now {
            "created"@
        } else {
            "modified"@
        },
        IndexOperation::Delete => "deleted"@,
        IndexOperation::Ignore => "unknown"@,
    }
}

/// Builds the observation for one processed path.
pub fn build_observation(
    op: IndexOperation,
    path: &String,
    exists_now: bool,
    timestamp: u64,
    success: bool,
    message: String,
) -> (ev: FileWatcherEvent)
    ensures
        ev.event_type@ == event_type_spec(op, exists_now),
        ev.file_path@ == path@,
        ev.timestamp == timestamp,
        ev.success == success,
        ev.message == message,
{
    let event_type = match op {
        IndexOperation::Upsert => if exists_now {
            String::from_str("created")
        } else {
            String::from_str("modified")
        },
        IndexOperation::Delete => String::from_str("deleted"),
        IndexOperation::Ignore => String::from_str("unknown"),
    };
    FileWatcherEvent { event_type, file_path: path.clone(), timestamp, success, message }
}

} // verus!
