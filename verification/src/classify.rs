//! Classification of raw file-system change notifications into index
//! operations.

use vstd::prelude::*;

verus! {

/// The kind of a raw file-system change notification, as the watch layer
/// reports it.  `Created` stands for the creation of a regular file;
/// directory creations and everything else the watch layer does not
/// distinguish arrive as `Other`.
#[derive(Debug, Clone, Copy, PartialEq, Eq, Structural)]
pub enum NotificationKind {
    Created,
    ModifiedContent,
    RenamedTo,
    RenamedFrom,
    RenamedBoth,
    Removed,
    Other,
}

/// The index operation derived from one notification kind.
#[derive(Debug, Clone, Copy, PartialEq, Eq, Structural)]
pub enum IndexOperation {
    Upsert,
    Delete,
    Ignore,
}

/// A raw change notification: a kind plus the affected paths.
#[derive(Debug, Clone)]
pub struct RawChangeNotification {
    pub kind: NotificationKind,
    pub paths: Vec<String>,
}

/// The operation that a notification kind maps to: creations, content
/// modifications and rename targets become upserts; removals and rename
/// sources become deletes; everything else is ignored.
pub open spec fn classify_spec(kind: NotificationKind) -> IndexOperation {
    match kind {
        NotificationKind::Created => IndexOperation::Upsert,
        NotificationKind::ModifiedContent => IndexOperation::Upsert,
        NotificationKind::RenamedTo => IndexOperation::Upsert,
        NotificationKind::RenamedBoth => IndexOperation::Upsert,
        NotificationKind::RenamedFrom => IndexOperation::Delete,
        NotificationKind::Removed => IndexOperation::Delete,
        NotificationKind::Other => IndexOperation::Ignore,
    }
}

/// A notification is worth processing only when it affects at least one
/// path and its kind maps to a real operation.
pub open spec fn should_process_spec(n: RawChangeNotification) -> bool {
    n.paths@.len() > 0 && !(classify_spec(n.kind) is Ignore)
}

/// Maps a whole notification to the operation to perform on each of its
/// paths.
pub fn classify_notification(n: &RawChangeNotification) -> (op: IndexOperation)
    ensures
        op == classify_spec(n.kind),
{
    classify(n.kind)
}

/// Checks whether a notification carries any path and an operation worth
/// acting on; everything else is dropped without touching the index.
pub fn should_process(n: &RawChangeNotification) -> (r: bool)
    ensures
        r == should_process_spec(*n),
{
    n.paths.len() > 0 && !matches!(classify(n.kind), IndexOperation::Ignore)
}

/// Maps a notification kind to the index operation to perform on each of
/// the notification's paths.
pub fn classify(kind: NotificationKind) -> (op: IndexOperation)
    ensures
        op == classify_spec(kind),
{
    match kind {
        NotificationKind::Created => IndexOperation::Upsert,
        NotificationKind::ModifiedContent => IndexOperation::Upsert,
        NotificationKind::RenamedTo => IndexOperation::Upsert,
        NotificationKind::RenamedBoth => IndexOperation::Upsert,
        NotificationKind::RenamedFrom => IndexOperation::Delete,
        NotificationKind::Removed => IndexOperation::Delete,
        NotificationKind::Other => IndexOperation::Ignore,
    }
}

} // verus!
