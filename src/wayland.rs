//! Discovery of input seats and of the idle-notification manager on the
//! compositor's registry. The two may be announced in either order; every
//! seat gets exactly one idle subscription once the manager is known.
use vstd::prelude::*;

use crate::messages::same_text;

verus! {

pub open spec fn seat_interface() -> Seq<char> {
    "wl_seat"@
}

pub open spec fn notifier_interface() -> Seq<char> {
    "ext_idle_notifier_v1"@
}

/// What to do with one announced global.
#[derive(Debug, Clone)]
pub enum GlobalAction {
    /// Bind the seat; when `subscribe`, also create its idle notification.
    BindSeat { subscribe: bool },
    /// Bind the manager and create an idle notification for each of these
    /// seats.
    BindNotifier { seats: Vec<u32> },
    /// Nothing to do: another interface, or one already known.
    Ignore,
}

/// The seats whose idle notification an action creates, given the name of
/// the announced global.
pub open spec fn subscriptions(a: GlobalAction, name: u32) -> Seq<u32> {
    match a {
        GlobalAction::BindSeat { subscribe } => if subscribe { seq![name] } else { seq![] },
        GlobalAction::BindNotifier { seats } => seats@,
        GlobalAction::Ignore => seq![],
    }
}

/// The seats known so far, in order of discovery, and whether the
/// idle-notification manager was bound.
#[derive(Debug, Clone)]
pub struct SeatRegistry {
    pub seats: Vec<u32>,
    pub notifier_bound: bool,
}

/// The next registry model and the seats to subscribe, for one global.
pub open spec fn global_spec(v: (Seq<u32>, bool), name: u32, interface: Seq<char>) -> ((Seq<u32>, bool), Seq<u32>) {
    if interface == seat_interface() {
        if v.0.contains(name) {
            (v, seq![])
        } else {
            ((v.0.push(name), v.1), if v.1 { seq![name] } else { seq![] })
        }
    } else if interface == notifier_interface() {
        if v.1 {
            (v, seq![])
        } else {
            ((v.0, true), v.0)
        }
    } else {
        (v, seq![])
    }
}

/// The registry model and every subscription made, after a sequence of
/// announced globals (name, interface).
pub open spec fn globals_spec(v: (Seq<u32>, bool), globals: Seq<(u32, Seq<char>)>) -> ((Seq<u32>, bool), Seq<u32>)
    decreases globals.len(),
{
    if globals.len() == 0 {
        (v, seq![])
    } else {
        let prev = globals_spec(v, globals.drop_last());
        let next = global_spec(prev.0, globals.last().0, globals.last().1);
        (next.0, prev.1 + next.1)
    }
}

impl View for SeatRegistry {
    type V = (Seq<u32>, bool);

    open spec fn view(&self) -> (Seq<u32>, bool) {
        (self.seats@, self.notifier_bound)
    }
}

impl SeatRegistry {
    /// No seat and no manager known.
    pub fn new() -> (r: SeatRegistry)
        ensures
            r@ == (Seq::<u32>::empty(), false),
    {
        SeatRegistry { seats: Vec::new(), notifier_bound: false }
    }

    fn knows_seat(&self, name: u32) -> (r: bool)
        ensures
            r == self.seats@.contains(name),
    {
        let mut i: usize = 0;
        while i < self.seats.len()
            invariant
                0 <= i <= self.seats@.len(),
                forall|j: int| 0 <= j < i ==> self.seats@[j] != name,
            decreases self.seats@.len() - i,
        {
            if self.seats[i] == name {
                return true;
            }
            i = i + 1;
        }
        false
    }

    /// Takes one global the registry announced; see `global_spec`.
    pub fn handle_global(&mut self, name: u32, interface: &str) -> (r: GlobalAction)
        ensures
            (final(self)@, subscriptions(r, name)) == global_spec(old(self)@, name, interface@),
            r is BindSeat <==> (interface@ == seat_interface() && !old(self)@.0.contains(name)),
            r is BindNotifier <==> (interface@ == notifier_interface() && !old(self)@.1),
    {
        proof {
            reveal_strlit("wl_seat");
            reveal_strlit("ext_idle_notifier_v1");
            assert(seat_interface().len() != notifier_interface().len());
        }
        if same_text(interface, "wl_seat") {
            if self.knows_seat(name) {
                GlobalAction::Ignore
            } else {
                self.seats.push(name);
                let r = GlobalAction::BindSeat { subscribe: self.notifier_bound };
                assert(subscriptions(r, name) =~= (if self.notifier_bound { seq![name] } else { seq![] }));
                r
            }
        } else if same_text(interface, "ext_idle_notifier_v1") {
            if self.notifier_bound {
                GlobalAction::Ignore
            } else {
                self.notifier_bound = true;
                GlobalAction::BindNotifier { seats: self.seats.clone() }
            }
        } else {
            GlobalAction::Ignore
        }
    }
}

/// Whatever the order in which seats and the manager are announced, the
/// seats subscribed so far are exactly the seats discovered, each once and
/// in order of discovery, once the manager is bound; none before.
pub proof fn lemma_every_seat_subscribed_once(globals: Seq<(u32, Seq<char>)>)
    ensures
        ({
            let (v, subs) = globals_spec((Seq::<u32>::empty(), false), globals);
            &&& v.0.no_duplicates()
            &&& subs == (if v.1 { v.0 } else { Seq::<u32>::empty() })
        }),
    decreases globals.len(),
{
    if globals.len() > 0 {
        lemma_every_seat_subscribed_once(globals.drop_last());
        let prev = globals_spec((Seq::<u32>::empty(), false), globals.drop_last());
        let (name, iface) = globals.last();
        let next = global_spec(prev.0, name, iface);
        if iface == seat_interface() && !prev.0.0.contains(name) {
            assert forall|i: int, j: int| 0 <= i < j < next.0.0.len() implies next.0.0[i] != next.0.0[j] by {
                if j == prev.0.0.len() {
                    assert(prev.0.0.contains(prev.0.0[i]));
                }
            }
        }
        assert(prev.1 + next.1 =~= (if next.0.1 { next.0.0 } else { Seq::<u32>::empty() }));
    }
}

} // verus!
