//! Control state of the single-seat Wayland idle monitor: who is told of
//! idle and resume, whether a dispatch thread was launched, and whether it
//! must keep dispatching. The state is owned by its caller (shared with the
//! dispatch thread behind a lock) rather than held in process globals.
use vstd::prelude::*;

verus! {

/// What the idle monitor reports to its listener.
#[derive(Debug, Clone, Copy, PartialEq, Eq, Structural)]
pub enum IdleEvent {
    Idled,
    Resumed,
}

/// `signal` is the listener, `initialized` whether a dispatch thread was
/// launched, `running` whether it must keep dispatching, `stop_armed`
/// whether a stop message can be sent to it.
#[derive(Debug)]
pub struct IdleMonitor<S> {
    pub signal: Option<S>,
    pub initialized: bool,
    pub running: bool,
    pub stop_armed: bool,
}

impl<S> IdleMonitor<S> {
    /// A monitor with no listener and no thread.
    pub fn new() -> (r: IdleMonitor<S>)
        ensures
            r.signal is None,
            !r.initialized,
            !r.running,
            !r.stop_armed,
    {
        IdleMonitor { signal: None, initialized: false, running: false, stop_armed: false }
    }

    /// Records that the dispatch thread was launched after a successful
    /// connection.
    pub fn monitor_launched(&mut self)
        ensures
            final(self).signal == old(self).signal,
            final(self).initialized,
            final(self).running,
            final(self).stop_armed,
    {
        self.running = true;
        self.stop_armed = true;
        self.initialized = true;
    }

    /// Whether the dispatch loop goes on for another round, given whether a
    /// stop message arrived since the last one.
    pub fn keep_dispatching(&self, stop_received: bool) -> (r: bool)
        ensures
            r == (self.running && !stop_received),
    {
        self.running && !stop_received
    }
}

/// Makes `idle_signal` the listener of idle and resume events.
pub fn set_signal_sender<S>(monitor: &mut IdleMonitor<S>, idle_signal: S)
    ensures
        final(monitor).signal == Some(idle_signal),
        final(monitor).initialized == old(monitor).initialized,
        final(monitor).running == old(monitor).running,
        final(monitor).stop_armed == old(monitor).stop_armed,
{
    monitor.signal = Some(idle_signal);
}

/// Sets the listener and says whether a dispatch thread must be launched:
/// `Some(timeout)` unless one already was.
pub fn idle_start<S>(monitor: &mut IdleMonitor<S>, timeout: u32, idle_signal: S) -> (r: Option<u32>)
    ensures
        final(monitor).signal == Some(idle_signal),
        final(monitor).initialized == old(monitor).initialized,
        final(monitor).running == old(monitor).running,
        final(monitor).stop_armed == old(monitor).stop_armed,
        r == (if old(monitor).initialized { None } else { Some(timeout) }),
{
    set_signal_sender(monitor, idle_signal);
    if monitor.initialized {
        None
    } else {
        Some(timeout)
    }
}

/// Stops the monitor: the dispatch loop ends, the listener is dropped and
/// a later start launches a new thread. Returns whether a stop message must
/// be sent to the running thread.
pub fn stop_idle_monitor<S>(monitor: &mut IdleMonitor<S>) -> (r: bool)
    ensures
        r == old(monitor).stop_armed,
        final(monitor).signal is None,
        !final(monitor).initialized,
        !final(monitor).running,
        !final(monitor).stop_armed,
{
    monitor.running = false;
    let send_stop = monitor.stop_armed;
    monitor.signal = None;
    monitor.initialized = false;
    monitor.stop_armed = false;
    send_stop
}

/// Stops the idle monitor; see `stop_idle_monitor`.
pub fn idle_stop<S>(monitor: &mut IdleMonitor<S>) -> (r: bool)
    ensures
        r == old(monitor).stop_armed,
        final(monitor).signal is None,
        !final(monitor).initialized,
        !final(monitor).running,
        !final(monitor).stop_armed,
{
    stop_idle_monitor(monitor)
}

} // verus!
