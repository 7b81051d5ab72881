use wayafknext::monitor::{
    choose_backend, key_for_name, key_name, timeout_millis, translate_notification, watch_plan,
    Backend, WatchSpec,
};
use wayafknext::mutter::{KeyWatch, MutterWatches};
use wayafknext::wayland::{GlobalAction, SeatRegistry};
use wayafknext::{WatchEvent, WatchKey};

fn watched(status: u64, notifs: u64) -> MutterWatches {
    let mut w = MutterWatches::new();
    w.add_idle_watch(WatchKey::Status, status);
    w.add_idle_watch(WatchKey::Notifs, notifs);
    w
}

#[test]
fn mutter_idle_then_resume() {
    let mut w = watched(10, 11);
    assert_eq!(w.on_watch_fired(10), Some(WatchEvent::StatusIdle(true)));
    w.set_active_watch(WatchKey::Status, 20);
    assert_eq!(w.outstanding_watches(), vec![10, 20, 11]);
    assert_eq!(w.on_watch_fired(20), Some(WatchEvent::StatusIdle(false)));
    assert_eq!(w.status, Some(KeyWatch { idle_id: 10, idle: false, active_id: None }));
    assert_eq!(w.outstanding_watches(), vec![10, 11]);
}

#[test]
fn mutter_keys_are_independent() {
    let mut w = watched(10, 11);
    assert_eq!(w.on_watch_fired(11), Some(WatchEvent::NotifsIdle(true)));
    w.set_active_watch(WatchKey::Notifs, 21);
    assert_eq!(w.on_watch_fired(10), Some(WatchEvent::StatusIdle(true)));
    w.set_active_watch(WatchKey::Status, 22);
    assert_eq!(w.outstanding_watches(), vec![10, 22, 11, 21]);
    assert_eq!(w.on_watch_fired(21), Some(WatchEvent::NotifsIdle(false)));
    assert_eq!(w.on_watch_fired(22), Some(WatchEvent::StatusIdle(false)));
}

#[test]
fn mutter_repeated_idle_fire_is_ignored() {
    let mut w = watched(10, 11);
    assert_eq!(w.on_watch_fired(10), Some(WatchEvent::StatusIdle(true)));
    assert_eq!(w.on_watch_fired(10), None);
}

#[test]
fn mutter_unknown_watch_is_ignored() {
    let mut w = watched(10, 11);
    let before = w;
    assert_eq!(w.on_watch_fired(99), None);
    assert_eq!(w, before);
    let mut empty = MutterWatches::new();
    assert_eq!(empty.on_watch_fired(0), None);
    assert!(empty.outstanding_watches().is_empty());
}

#[test]
fn mutter_single_key() {
    let mut w = MutterWatches::new();
    w.add_idle_watch(WatchKey::Notifs, 5);
    assert_eq!(w.outstanding_watches(), vec![5]);
    w.set_active_watch(WatchKey::Status, 6);
    assert_eq!(w.status, None);
}

#[test]
fn timeouts_in_milliseconds() {
    assert_eq!(timeout_millis(1), 60_000);
    assert_eq!(timeout_millis(5), 300_000);
    assert_eq!(timeout_millis(0), 0);
    assert_eq!(timeout_millis(u64::MAX), u64::MAX);
    assert_eq!(timeout_millis(u64::MAX / 60_000 + 1), u64::MAX);
}

#[test]
fn plan_skips_zero_timeouts() {
    assert_eq!(
        watch_plan(1, 5),
        vec![
            WatchSpec { key: WatchKey::Status, millis: 60_000 },
            WatchSpec { key: WatchKey::Notifs, millis: 300_000 },
        ]
    );
    assert_eq!(watch_plan(0, 2), vec![WatchSpec { key: WatchKey::Notifs, millis: 120_000 }]);
    assert!(watch_plan(0, 0).is_empty());
}

#[test]
fn backend_choice() {
    assert_eq!(choose_backend(true), Backend::Mutter);
    assert_eq!(choose_backend(false), Backend::Wayland);
}

#[test]
fn handler_names() {
    assert_eq!(key_name(WatchKey::Status), "status");
    assert_eq!(key_name(WatchKey::Notifs), "notifs");
    assert_eq!(key_for_name("status"), Some(WatchKey::Status));
    assert_eq!(key_for_name("notifs"), Some(WatchKey::Notifs));
    assert_eq!(key_for_name("Status"), None);
    assert_eq!(translate_notification("notifs", true), Some(WatchEvent::NotifsIdle(true)));
    assert_eq!(translate_notification("status", false), Some(WatchEvent::StatusIdle(false)));
    assert_eq!(translate_notification("other", true), None);
}

fn subs(a: &GlobalAction, name: u32) -> Vec<u32> {
    match a {
        GlobalAction::BindSeat { subscribe: true } => vec![name],
        GlobalAction::BindNotifier { seats } => seats.clone(),
        _ => vec![],
    }
}

#[test]
fn seats_before_the_notifier_are_subscribed_when_it_appears() {
    let mut r = SeatRegistry::new();
    let mut all = Vec::new();
    for (name, iface) in [(3, "wl_seat"), (4, "wl_output"), (5, "wl_seat"), (9, "ext_idle_notifier_v1"), (7, "wl_seat")] {
        let a = r.handle_global(name, iface);
        all.extend(subs(&a, name));
    }
    assert_eq!(all, vec![3, 5, 7]);
    assert_eq!(r.seats, vec![3, 5, 7]);
    assert!(r.notifier_bound);
}

#[test]
fn known_seat_and_second_notifier_are_ignored() {
    let mut r = SeatRegistry::new();
    assert!(matches!(r.handle_global(1, "ext_idle_notifier_v1"), GlobalAction::BindNotifier { .. }));
    assert!(matches!(r.handle_global(2, "wl_seat"), GlobalAction::BindSeat { subscribe: true }));
    assert!(matches!(r.handle_global(2, "wl_seat"), GlobalAction::Ignore));
    assert!(matches!(r.handle_global(8, "ext_idle_notifier_v1"), GlobalAction::Ignore));
    assert!(matches!(r.handle_global(9, "wl_compositor"), GlobalAction::Ignore));
    assert_eq!(r.seats, vec![2]);
}
