//! Messages exchanged between clients, the daemon and the monitor backends.
use vstd::prelude::*;

verus! {

/// One independently tracked idle timeout.
#[derive(Debug, Clone, Copy, PartialEq, Eq, Structural)]
pub enum WatchKey {
    Status,
    Notifs,
}

/// The normalized fact the monitor produces: a key went idle (`true`) or
/// input resumed after it was idle (`false`).
#[derive(Debug, Clone, Copy, PartialEq, Eq, Structural)]
pub enum WatchEvent {
    StatusIdle(bool),
    NotifsIdle(bool),
}

impl WatchEvent {
    pub open spec fn spec_key(self) -> WatchKey {
        match self {
            WatchEvent::StatusIdle(_) => WatchKey::Status,
            WatchEvent::NotifsIdle(_) => WatchKey::Notifs,
        }
    }

    pub open spec fn spec_idle(self) -> bool {
        match self {
            WatchEvent::StatusIdle(b) => b,
            WatchEvent::NotifsIdle(b) => b,
        }
    }

    pub open spec fn spec_of(key: WatchKey, idle: bool) -> WatchEvent {
        match key {
            WatchKey::Status => WatchEvent::StatusIdle(idle),
            WatchKey::Notifs => WatchEvent::NotifsIdle(idle),
        }
    }

    /// The key this event is about.
    pub fn key(&self) -> (r: WatchKey)
        ensures
            r == self.spec_key(),
    {
        match self {
            WatchEvent::StatusIdle(_) => WatchKey::Status,
            WatchEvent::NotifsIdle(_) => WatchKey::Notifs,
        }
    }

    /// Whether this event reports the key as idle.
    pub fn idle(&self) -> (r: bool)
        ensures
            r == self.spec_idle(),
    {
        match self {
            WatchEvent::StatusIdle(b) => *b,
            WatchEvent::NotifsIdle(b) => *b,
        }
    }

    /// The event that reports `key` as `idle`.
    pub fn of(key: WatchKey, idle: bool) -> (r: WatchEvent)
        ensures
            r == WatchEvent::spec_of(key, idle),
            r.spec_key() == key,
            r.spec_idle() == idle,
    {
        match key {
            WatchKey::Status => WatchEvent::StatusIdle(idle),
            WatchKey::Notifs => WatchEvent::NotifsIdle(idle),
        }
    }
}

/// What the daemon sends to every connected client.
#[derive(Debug, Clone, Copy, PartialEq, Eq, Structural)]
pub enum Broadcast {
    WatchEvent(WatchEvent),
    WatchStarted { status_mins: u64, notifs_mins: u64 },
    WatchStopped,
}

/// A command read from one client line.
#[derive(Debug, Clone, Copy, PartialEq, Eq, Structural)]
pub enum ClientInput {
    Quit,
    StartWatch { status_mins: u64, notifs_mins: u64 },
    StopWatch,
}

/// What a client session hands to the daemon: a command, or the reason the
/// session failed.
#[derive(Debug, Clone)]
pub enum ClientEvent {
    Input(ClientInput),
    Error(String),
}

/// What a monitor run hands to the daemon: an event, or the reason the run
/// failed.
#[derive(Debug, Clone)]
pub enum MonitorEvent {
    WatchEvent(WatchEvent),
    Error(String),
}

/// Whether two texts hold the same characters.
pub(crate) fn same_text(a: &str, b: &str) -> (r: bool)
    ensures
        r == (a@ == b@),
{
    a.to_owned() == b.to_owned()
}

} // verus!
