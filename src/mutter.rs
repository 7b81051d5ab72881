//! Bookkeeping of the remote idle-monitor backend: which native watch
//! identifier belongs to which key, which keys are idle, and which watches
//! must be removed when the run ends.
use vstd::prelude::*;

use crate::messages::{WatchEvent, WatchKey};

verus! {

/// The remote idle monitor's watches for one key: the idle watch, whether
/// the key is idle, and the one-shot active watch that reports the resume.
#[derive(Debug, Clone, Copy, PartialEq, Eq, Structural)]
pub struct KeyWatch {
    pub idle_id: u64,
    pub idle: bool,
    pub active_id: Option<u64>,
}

/// The watches of one run; a key whose timeout is zero has none.
#[derive(Debug, Clone, Copy, PartialEq, Eq, Structural)]
pub struct MutterWatches {
    pub status: Option<KeyWatch>,
    pub notifs: Option<KeyWatch>,
}

pub open spec fn idle_fired(slot: Option<KeyWatch>, id: u64) -> bool {
    slot matches Some(w) && w.idle_id == id && !w.idle
}

pub open spec fn active_fired(slot: Option<KeyWatch>, id: u64) -> bool {
    slot matches Some(w) && w.active_id == Some(id)
}

pub open spec fn mark_idle(slot: Option<KeyWatch>) -> Option<KeyWatch> {
    match slot {
        Some(w) => Some(KeyWatch { idle_id: w.idle_id, idle: true, active_id: w.active_id }),
        None => None,
    }
}

pub open spec fn mark_resumed(slot: Option<KeyWatch>) -> Option<KeyWatch> {
    match slot {
        Some(w) => Some(KeyWatch { idle_id: w.idle_id, idle: false, active_id: None }),
        None => None,
    }
}

pub open spec fn with_active(slot: Option<KeyWatch>, id: u64) -> Option<KeyWatch> {
    match slot {
        Some(w) => Some(KeyWatch { idle_id: w.idle_id, idle: w.idle, active_id: Some(id) }),
        None => None,
    }
}

/// The identifiers of a key's watches that exist on the remote side.
pub open spec fn slot_ids(slot: Option<KeyWatch>) -> Seq<u64> {
    match slot {
        Some(w) => match w.active_id {
            Some(a) => seq![w.idle_id, a],
            None => seq![w.idle_id],
        },
        None => seq![],
    }
}

fn slot_idle_fired(slot: &Option<KeyWatch>, id: u64) -> (r: bool)
    ensures
        r == idle_fired(*slot, id),
{
    match slot {
        Some(w) => w.idle_id == id && !w.idle,
        None => false,
    }
}

fn slot_active_fired(slot: &Option<KeyWatch>, id: u64) -> (r: bool)
    ensures
        r == active_fired(*slot, id),
{
    match slot {
        Some(w) => match w.active_id {
            Some(a) => a == id,
            None => false,
        },
        None => false,
    }
}

fn push_slot_ids(slot: &Option<KeyWatch>, out: &mut Vec<u64>)
    ensures
        final(out)@ == old(out)@ + slot_ids(*slot),
{
    match slot {
        Some(w) => {
            out.push(w.idle_id);
            match w.active_id {
                Some(a) => out.push(a),
                None => {},
            }
        },
        None => {},
    }
    assert(final(out)@ =~= old(out)@ + slot_ids(*slot));
}

impl MutterWatches {
    pub open spec fn slot(self, key: WatchKey) -> Option<KeyWatch> {
        match key {
            WatchKey::Status => self.status,
            WatchKey::Notifs => self.notifs,
        }
    }

    /// What a fired watch does: the next bookkeeping and the event to relay.
    /// An idle watch of a key that is not idle makes it idle; the caller then
    /// asks for an active watch and records it with `set_active_watch`. The
    /// recorded active watch of a key makes it active again and is gone.
    /// Any other identifier is not this run's and changes nothing.
    pub open spec fn fired_spec(self, id: u64) -> (MutterWatches, Option<WatchEvent>) {
        if idle_fired(self.status, id) {
            (
                MutterWatches { status: mark_idle(self.status), notifs: self.notifs },
                Some(WatchEvent::StatusIdle(true)),
            )
        } else if idle_fired(self.notifs, id) {
            (
                MutterWatches { status: self.status, notifs: mark_idle(self.notifs) },
                Some(WatchEvent::NotifsIdle(true)),
            )
        } else if active_fired(self.status, id) {
            (
                MutterWatches { status: mark_resumed(self.status), notifs: self.notifs },
                Some(WatchEvent::StatusIdle(false)),
            )
        } else if active_fired(self.notifs, id) {
            (
                MutterWatches { status: self.status, notifs: mark_resumed(self.notifs) },
                Some(WatchEvent::NotifsIdle(false)),
            )
        } else {
            (self, None)
        }
    }

    /// Every watch of this run that exists on the remote side: for each key,
    /// status first, its idle watch and then its active watch.
    pub open spec fn outstanding_spec(self) -> Seq<u64> {
        slot_ids(self.status) + slot_ids(self.notifs)
    }

    /// No watch registered yet.
    pub fn new() -> (r: MutterWatches)
        ensures
            r.status is None,
            r.notifs is None,
    {
        MutterWatches { status: None, notifs: None }
    }

    /// Records the idle watch the remote monitor created for `key`.
    pub fn add_idle_watch(&mut self, key: WatchKey, id: u64)
        ensures
            final(self).slot(key) == Some(KeyWatch { idle_id: id, idle: false, active_id: None }),
            key is Status ==> final(self).notifs == old(self).notifs,
            key is Notifs ==> final(self).status == old(self).status,
    {
        let w = KeyWatch { idle_id: id, idle: false, active_id: None };
        match key {
            WatchKey::Status => self.status = Some(w),
            WatchKey::Notifs => self.notifs = Some(w),
        }
    }

    /// Records the active watch the remote monitor created for `key` after
    /// it went idle.
    pub fn set_active_watch(&mut self, key: WatchKey, id: u64)
        ensures
            final(self).slot(key) == with_active(old(self).slot(key), id),
            key is Status ==> final(self).notifs == old(self).notifs,
            key is Notifs ==> final(self).status == old(self).status,
    {
        match key {
            WatchKey::Status => {
                if let Some(w) = self.status {
                    self.status = Some(KeyWatch { idle_id: w.idle_id, idle: w.idle, active_id: Some(id) });
                }
            },
            WatchKey::Notifs => {
                if let Some(w) = self.notifs {
                    self.notifs = Some(KeyWatch { idle_id: w.idle_id, idle: w.idle, active_id: Some(id) });
                }
            },
        }
    }

    /// Takes a fired-watch signal carrying `id`; see `fired_spec`.
    pub fn on_watch_fired(&mut self, id: u64) -> (r: Option<WatchEvent>)
        ensures
            (*final(self), r) == old(self).fired_spec(id),
    {
        if slot_idle_fired(&self.status, id) {
            if let Some(w) = self.status {
                self.status = Some(KeyWatch { idle_id: w.idle_id, idle: true, active_id: w.active_id });
            }
            Some(WatchEvent::StatusIdle(true))
        } else if slot_idle_fired(&self.notifs, id) {
            if let Some(w) = self.notifs {
                self.notifs = Some(KeyWatch { idle_id: w.idle_id, idle: true, active_id: w.active_id });
            }
            Some(WatchEvent::NotifsIdle(true))
        } else if slot_active_fired(&self.status, id) {
            if let Some(w) = self.status {
                self.status = Some(KeyWatch { idle_id: w.idle_id, idle: false, active_id: None });
            }
            Some(WatchEvent::StatusIdle(false))
        } else if slot_active_fired(&self.notifs, id) {
            if let Some(w) = self.notifs {
                self.notifs = Some(KeyWatch { idle_id: w.idle_id, idle: false, active_id: None });
            }
            Some(WatchEvent::NotifsIdle(false))
        } else {
            None
        }
    }

    /// The watches to remove when the run is cancelled; see
    /// `outstanding_spec`.
    pub fn outstanding_watches(&self) -> (r: Vec<u64>)
        ensures
            r@ == self.outstanding_spec(),
    {
        let mut out: Vec<u64> = Vec::new();
        push_slot_ids(&self.status, &mut out);
        push_slot_ids(&self.notifs, &mut out);
        assert(out@ =~= self.outstanding_spec());
        out
    }
}

} // verus!
