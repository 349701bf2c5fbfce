//! The watch supervisor: owns the lifecycle of the single active
//! file-system watch.
//!
//! Exactly one watch may be active at a time.  Starting while one is
//! running fails without side effects; stopping while none is running is
//! a reported error, not a silent no-op.  The watch handle itself and the
//! notification feed live in the surrounding application; the supervisor
//! records which path is watched and decides every lifecycle transition.

use crate::observe::FileWatcherEvent;
use vstd::prelude::*;
use vstd::string::*;

verus! {

/// Lifecycle failures of the watcher, surfaced synchronously to the
/// caller of start or stop.
#[derive(Debug, Clone)]
pub enum WatcherError {
    CreationFailed(String),
    PathWatchFailed(String, String),
    DatabaseError(String),
    AlreadyRunning,
    NotRunning,
}

/// A snapshot of the watcher's state.
#[derive(Debug)]
pub struct WatcherStatus {
    pub is_running: bool,
    pub watched_path: Option<String>,
    pub events_processed: u64,
    pub last_event_time: Option<u64>,
}

/// The supervisor: the path under watch while one is active, and the
/// counters the status report carries.
#[derive(Debug)]
pub struct WatchSupervisor {
    pub watched_path: Option<String>,
    pub events_processed: u64,
    pub last_event_time: Option<u64>,
}

impl WatchSupervisor {
    /// Whether a watch is active.
    pub open spec fn is_running(&self) -> bool {
        self.watched_path is Some
    }

    /// A fresh supervisor: nothing watched, nothing processed yet.
    pub fn new() -> (s: WatchSupervisor)
        ensures
            s.watched_path is None,
            s.events_processed == 0,
            s.last_event_time is None,
    {
        WatchSupervisor { watched_path: Option::None, events_processed: 0, last_event_time: Option::None }
    }

    /// Starts watching `path`.  Fails without side effects when a watch
    /// is already active; otherwise records the path and reports
    /// success.
    pub fn start_watcher_command(&mut self, path: &String) -> (r: Result<String, WatcherError>)
        ensures
            old(self).is_running() ==> (r matches Result::Err(WatcherError::AlreadyRunning)
                && *final(self) == *old(self)),
            !old(self).is_running() ==> {
                &&& final(self).watched_path matches Option::Some(p) && p@ == path@
                &&& final(self).events_processed == old(self).events_processed
                &&& final(self).last_event_time == old(self).last_event_time
                &&& r matches Result::Ok(m) && m@ == "File watcher started successfully for: "@
                    + path@
            },
    {
        match &self.watched_path {
            Option::Some(_) => Result::Err(WatcherError::AlreadyRunning),
            Option::None => {
                self.watched_path = Option::Some(path.clone());
                let mut m = String::from_str("File watcher started successfully for: ");
                m.append(path.as_str());
                Result::Ok(m)
            },
        }
    }

    /// Stops the active watch.  Fails when none is running; otherwise
    /// clears the recorded path and reports success.
    pub fn stop_watcher_command(&mut self) -> (r: Result<String, WatcherError>)
        ensures
            !old(self).is_running() ==> (r matches Result::Err(WatcherError::NotRunning)
                && *final(self) == *old(self)),
            old(self).is_running() ==> {
                &&& final(self).watched_path is None
                &&& final(self).events_processed == old(self).events_processed
                &&& final(self).last_event_time == old(self).last_event_time
                &&& r matches Result::Ok(m) && m@ == "File watcher stopped successfully"@
            },
    {
        match &self.watched_path {
            Option::None => Result::Err(WatcherError::NotRunning),
            Option::Some(_) => {
                self.watched_path = Option::None;
                Result::Ok(String::from_str("File watcher stopped successfully"))
            },
        }
    }

    /// Reports whether a watch is running, for which path, and the event
    /// counters.
    pub fn get_watcher_status(&self) -> (st: WatcherStatus)
        ensures
            st.is_running == self.is_running(),
            match self.watched_path {
                Option::Some(p) => st.watched_path matches Option::Some(q) && q@ == p@,
                Option::None => st.watched_path is None,
            },
            st.events_processed == self.events_processed,
            st.last_event_time == self.last_event_time,
    {
        let watched_path = match &self.watched_path {
            Option::Some(p) => Option::Some(p.clone()),
            Option::None => Option::None,
        };
        WatcherStatus {
            is_running: watched_path.is_some(),
            watched_path,
            events_processed: self.events_processed,
            last_event_time: self.last_event_time,
        }
    }

    /// Records that one notification was processed at the given time.
    /// The counter saturates rather than wrapping.
    pub fn note_event_processed(&mut self, timestamp: u64)
        ensures
            final(self).watched_path == old(self).watched_path,
            final(self).events_processed == if old(self).events_processed < u64::MAX {
                old(self).events_processed + 1
            } else {
                old(self).events_processed as int
            },
            final(self).last_event_time == Option::Some(timestamp),
    {
        if self.events_processed < u64::MAX {
            self.events_processed = self.events_processed + 1;
        }
        self.last_event_time = Option::Some(timestamp);
    }
}

/// The observation emitted when a watch starts.
pub fn watcher_started_event(path: &String, timestamp: u64) -> (ev: FileWatcherEvent)
    ensures
        ev.event_type@ == "watcher-started"@,
        ev.file_path@ == path@,
        ev.timestamp == timestamp,
        ev.success,
        ev.message@ == "File watcher started for "@ + path@,
{
    let mut m = String::from_str("File watcher started for ");
    m.append(path.as_str());
    FileWatcherEvent {
        event_type: String::from_str("watcher-started"),
        file_path: path.clone(),
        timestamp,
        success: true,
        message: m,
    }
}

/// The observation emitted when the watch stops.
pub fn watcher_stopped_event(timestamp: u64) -> (ev: FileWatcherEvent)
    ensures
        ev.event_type@ == "watcher-stopped"@,
        ev.file_path@ == ""@,
        ev.timestamp == timestamp,
        ev.success,
        ev.message@ == "File watcher stopped"@,
{
    proof {
        reveal_strlit("");
        assert(""@ =~= Seq::<char>::empty());
    }
    FileWatcherEvent {
        event_type: String::from_str("watcher-stopped"),
        file_path: String::new(),
        timestamp,
        success: true,
        message: String::from_str("File watcher stopped"),
    }
}

} // verus!
