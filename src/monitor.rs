//! The monitor orchestrator's decisions: which backend runs, which keys it
//! watches with which timeouts, and how backend key names map to events.
use vstd::prelude::*;

use crate::messages::{same_text, WatchEvent, WatchKey};

verus! {

/// The two idle-detection mechanisms.
#[derive(Debug, Clone, Copy, PartialEq, Eq, Structural)]
pub enum Backend {
    /// The desktop's remote idle-monitor service on the session bus.
    Mutter,
    /// The compositor's idle-notification protocol extension.
    Wayland,
}

/// One key to watch, with its timeout in milliseconds.
#[derive(Debug, Clone, Copy, PartialEq, Eq, Structural)]
pub struct WatchSpec {
    pub key: WatchKey,
    pub millis: u64,
}

pub const MILLIS_PER_MINUTE: u64 = 60000;

/// A timeout of `mins` minutes in milliseconds, capped at `u64::MAX`.
pub open spec fn timeout_millis_spec(mins: u64) -> u64 {
    if mins * 60000 <= u64::MAX {
        (mins * 60000) as u64
    } else {
        u64::MAX
    }
}

pub open spec fn key_plan(key: WatchKey, mins: u64) -> Seq<WatchSpec> {
    if mins > 0 {
        seq![WatchSpec { key, millis: timeout_millis_spec(mins) }]
    } else {
        seq![]
    }
}

/// The keys a run watches: each key whose timeout is not zero, status
/// first.
pub open spec fn plan_spec(status_mins: u64, notifs_mins: u64) -> Seq<WatchSpec> {
    key_plan(WatchKey::Status, status_mins) + key_plan(WatchKey::Notifs, notifs_mins)
}

/// The name a key has in the idle-notification handler.
pub open spec fn key_name_spec(key: WatchKey) -> Seq<char> {
    match key {
        WatchKey::Status => "status"@,
        WatchKey::Notifs => "notifs"@,
    }
}

/// The key a handler name stands for.
pub open spec fn key_of_name(name: Seq<char>) -> Option<WatchKey> {
    if name == "status"@ {
        Some(WatchKey::Status)
    } else if name == "notifs"@ {
        Some(WatchKey::Notifs)
    } else {
        None
    }
}

/// The remote idle monitor when the session is a GNOME one, the protocol
/// extension otherwise.
pub fn choose_backend(is_mutter: bool) -> (r: Backend)
    ensures
        r == (if is_mutter { Backend::Mutter } else { Backend::Wayland }),
{
    if is_mutter {
        Backend::Mutter
    } else {
        Backend::Wayland
    }
}

/// A timeout of `mins` minutes in milliseconds; see `timeout_millis_spec`.
pub fn timeout_millis(mins: u64) -> (r: u64)
    ensures
        r == timeout_millis_spec(mins),
{
    match mins.checked_mul(MILLIS_PER_MINUTE) {
        Some(m) => m,
        None => u64::MAX,
    }
}

/// The keys a run with these timeouts watches; see `plan_spec`.
pub fn watch_plan(status_mins: u64, notifs_mins: u64) -> (r: Vec<WatchSpec>)
    ensures
        r@ == plan_spec(status_mins, notifs_mins),
{
    let mut plan: Vec<WatchSpec> = Vec::new();
    if status_mins > 0 {
        plan.push(WatchSpec { key: WatchKey::Status, millis: timeout_millis(status_mins) });
    }
    if notifs_mins > 0 {
        plan.push(WatchSpec { key: WatchKey::Notifs, millis: timeout_millis(notifs_mins) });
    }
    assert(plan@ =~= plan_spec(status_mins, notifs_mins));
    plan
}

/// The name of `key` in the idle-notification handler.
pub fn key_name(key: WatchKey) -> (r: &'static str)
    ensures
        r@ == key_name_spec(key),
{
    match key {
        WatchKey::Status => "status",
        WatchKey::Notifs => "notifs",
    }
}

/// The key a handler name stands for; see `key_of_name`.
pub fn key_for_name(name: &str) -> (r: Option<WatchKey>)
    ensures
        r == key_of_name(name@),
{
    if same_text(name, "status") {
        Some(WatchKey::Status)
    } else if same_text(name, "notifs") {
        Some(WatchKey::Notifs)
    } else {
        None
    }
}

/// The event for a handler notification: `idled` for an idle
/// notification, false for a resume; `None` for a name that is not a key.
pub fn translate_notification(name: &str, idled: bool) -> (r: Option<WatchEvent>)
    ensures
        r == (match key_of_name(name@) {
            Some(k) => Some(WatchEvent::spec_of(k, idled)),
            None => None,
        }),
{
    match key_for_name(name) {
        Some(k) => Some(WatchEvent::of(k, idled)),
        None => None,
    }
}

} // verus!
