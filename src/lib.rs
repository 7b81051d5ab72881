//! Core of a user idle-state monitoring daemon: the message types, the
//! daemon's decision machine, the two idle backends' bookkeeping and the
//! session facts, each with its contract.
pub mod daemon;
pub mod idle_detection;
pub mod messages;
pub mod monitor;
pub mod mutter;
pub mod session;
pub mod wayland;

pub use daemon::{Action, Daemon, DaemonInput, Phase};
pub use idle_detection::{
    idle_start, idle_stop, set_signal_sender, stop_idle_monitor, IdleEvent, IdleMonitor,
};
pub use messages::{Broadcast, ClientEvent, ClientInput, MonitorEvent, WatchEvent, WatchKey};
