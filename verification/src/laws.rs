//! What holds of connections and of the collection, whatever the calls.
//!
//! Each statement is over the functions in which the operations state what
//! they do: [`ConnectionView::connect`], [`ConnectionView::observe`],
//! [`toggled`], [`snapshot`] and the like.

use crate::commands::{ItemView, PodmanState, TunnelState, TunnelStatus};
use crate::connection::ConnectionView;
use crate::containers::{by_state, in_state, rank};
use crate::supervisor::{
    disconnect_all, fired_at, first_named, idle_all, is_first_named, knows, launch_of,
    lemma_first_named, lemma_least_place, names_distinct, observe_all, snapshot, status_of,
    toggled, tunnels_of, well_formed,
};
use crate::tunnel::Tunnel;
use tokio_util::sync::CancellationToken;
use vstd::prelude::*;

verus! {

/// One for `true`, nothing for `false`.
pub open spec fn count(b: bool) -> nat {
    if b {
        1
    } else {
        0
    }
}

/// A connection is served by at most one process. Take any connection, the
/// signal of whose session has `fired` or not, and ask twice in a row to
/// connect it, the process running on in between. Then the second request
/// starts nothing and changes nothing, and the process that was running
/// before, if any, and the processes that the two requests start are exactly
/// one.
pub proof fn law_connect_twice_one_process(
    connection: ConnectionView,
    fired: bool,
    first: CancellationToken,
    second: CancellationToken,
)
    ensures
        ({
            let once = connection.connect(fired, first);
            let twice = once.connect(false, second);
            &&& once.is_active()
            &&& !once.launches(false)
            &&& twice == once
            &&& connection.processes(fired) + count(connection.launches(fired)) + count(
                once.launches(false),
            ) == 1
            &&& twice.processes(false) == 1
        }),
{
}

/// Asked to connect, an idle connection starts a process and takes the
/// signal made for the request as its session.
pub proof fn law_connect_from_idle(tunnel: Tunnel, fired: bool, signal: CancellationToken)
    ensures
        ConnectionView::idle(tunnel).launches(fired),
        ConnectionView::idle(tunnel).connect(fired, signal) == (ConnectionView {
            tunnel,
            session: Some(signal),
        }),
{
}

/// Disconnecting an idle connection changes nothing, and disconnecting twice
/// is disconnecting once.
pub proof fn law_disconnect_idempotent(connection: ConnectionView)
    ensures
        !connection.is_active() ==> connection.disconnect() == connection,
        connection.disconnect().disconnect() == connection.disconnect(),
        !connection.disconnect().is_active(),
{
}

/// A process that has ended is not reported as connected. Once the signal of
/// a session has fired, the next observation finds the tunnel not connected
/// and leaves the connection idle, with no request to disconnect. A session
/// whose signal has not fired is kept as it is.
pub proof fn law_exit_is_observed(connection: ConnectionView)
    ensures
        !connection.alive(true),
        connection.observe(true) == connection.disconnect(),
        status_of(connection.observe(true)) == TunnelStatus::Disconnected,
        connection.observe(false) == connection,
        connection.observe(false).observe(false) == connection.observe(false),
{
}

/// In a listing, a tunnel whose session's signal has fired is disconnected,
/// and every other tunnel is listed as it was held.
pub proof fn law_listing_after_exit(view: Seq<ConnectionView>, fired: Seq<bool>, i: int)
    requires
        0 <= i < view.len(),
    ensures
        snapshot(observe_all(view, fired)).len() == view.len(),
        snapshot(observe_all(view, fired))[i].0 == view[i].tunnel.name@,
        fired_at(fired, i) ==> snapshot(observe_all(view, fired))[i].1
            == TunnelStatus::Disconnected,
        !fired_at(fired, i) ==> snapshot(observe_all(view, fired))[i] == snapshot(view)[i],
{
}

/// Every entry of a listing is whole: it names its tunnel, and its status is
/// either connected on that tunnel's local port or disconnected, as the
/// connection stands.
pub proof fn law_listing_entries(view: Seq<ConnectionView>, i: int)
    requires
        0 <= i < view.len(),
    ensures
        snapshot(view).len() == view.len(),
        snapshot(view)[i].0 == view[i].tunnel.name@,
        view[i].is_active() ==> snapshot(view)[i].1 == TunnelStatus::Connected(
            view[i].tunnel.local_port,
        ),
        !view[i].is_active() ==> snapshot(view)[i].1 == TunnelStatus::Disconnected,
{
}

/// A listing sees a request either not at all or in full. After a request on
/// a known name the collection keeps its length, names and order; the first
/// tunnel of that name is listed connected on its local port after `On` and
/// disconnected after `Off`; every other entry of the listing is as before.
pub proof fn law_listing_after_toggle(
    view: Seq<ConnectionView>,
    name: Seq<char>,
    state: TunnelState,
    fired: bool,
    signal: CancellationToken,
    i: int,
)
    requires
        knows(view, name),
        0 <= i < view.len(),
    ensures
        ({
            let after = toggled(view, name, state, fired, signal);
            let place = first_named(view, name);
            &&& is_first_named(view, name, place)
            &&& snapshot(after).len() == snapshot(view).len()
            &&& snapshot(after)[i].0 == snapshot(view)[i].0
            &&& i != place ==> after[i] == view[i] && snapshot(after)[i] == snapshot(view)[i]
            &&& i == place && state == TunnelState::On ==> snapshot(after)[i].1
                == TunnelStatus::Connected(view[i].tunnel.local_port)
            &&& i == place && state == TunnelState::Off ==> snapshot(after)[i].1
                == TunnelStatus::Disconnected
        }),
{
    let witness = choose|k: int| 0 <= k < view.len() && (#[trigger] view[k]).tunnel.name@ == name;
    lemma_least_place(view, name, witness);
}

/// A request on a name that no connection has starts nothing and leaves the
/// whole collection, and so its listing, as it was.
pub proof fn law_unknown_name_ignored(
    view: Seq<ConnectionView>,
    name: Seq<char>,
    state: TunnelState,
    fired: bool,
    signal: CancellationToken,
)
    requires
        !knows(view, name),
    ensures
        toggled(view, name, state, fired, signal) == view,
        launch_of(view, name, state, fired) is None,
        snapshot(toggled(view, name, state, fired, signal)) == snapshot(view),
{
}

/// A request to connect a tunnel that is connected, its process running,
/// starts nothing and leaves the collection as it was.
pub proof fn law_toggle_on_twice(
    view: Seq<ConnectionView>,
    name: Seq<char>,
    fired: bool,
    first: CancellationToken,
    second: CancellationToken,
)
    ensures
        ({
            let once = toggled(view, name, TunnelState::On, fired, first);
            &&& toggled(once, name, TunnelState::On, false, second) == once
            &&& launch_of(once, name, TunnelState::On, false) is None
        }),
{
    if knows(view, name) {
        let witness = choose|k: int|
            0 <= k < view.len() && (#[trigger] view[k]).tunnel.name@ == name;
        lemma_least_place(view, name, witness);
        let place = first_named(view, name);
        let once = toggled(view, name, TunnelState::On, fired, first);
        assert(once[place].tunnel.name@ == name);
        assert forall|j: int| 0 <= j < place implies (#[trigger] once[j]).tunnel.name@ != name by {
            assert(view[j].tunnel.name@ != name);
        }
        lemma_first_named(once, name, place);
        assert(once.update(place, once[place]) =~= once);
    }
}

/// Appending tunnels leaves the connections already held in place and
/// untouched, and adds the new ones idle.
pub proof fn law_extend_keeps_connections(view: Seq<ConnectionView>, tunnels: Seq<Tunnel>, i: int)
    requires
        0 <= i < view.len() + tunnels.len(),
    ensures
        (view + idle_all(tunnels)).len() == view.len() + tunnels.len(),
        i < view.len() ==> (view + idle_all(tunnels))[i] == view[i],
        i >= view.len() ==> (view + idle_all(tunnels))[i] == ConnectionView::idle(
            tunnels[i - view.len()],
        ),
{
}

/// After every tunnel was disconnected, the listing shows each of them
/// disconnected.
pub proof fn law_shutdown_disconnects(view: Seq<ConnectionView>, i: int)
    requires
        0 <= i < view.len(),
    ensures
        snapshot(disconnect_all(view))[i] == (view[i].tunnel.name@, TunnelStatus::Disconnected),
{
}

/// No operation on the sessions touches the tunnels: a request, an
/// observation and a shutdown leave every tunnel as it was, in its place.
pub proof fn law_tunnels_kept(
    view: Seq<ConnectionView>,
    name: Seq<char>,
    state: TunnelState,
    fired: bool,
    signal: CancellationToken,
    all_fired: Seq<bool>,
)
    ensures
        tunnels_of(toggled(view, name, state, fired, signal)) == tunnels_of(view),
        tunnels_of(observe_all(view, all_fired)) == tunnels_of(view),
        tunnels_of(disconnect_all(view)) == tunnels_of(view),
{
    if knows(view, name) {
        let witness = choose|k: int|
            0 <= k < view.len() && (#[trigger] view[k]).tunnel.name@ == name;
        lemma_least_place(view, name, witness);
    }
    assert(tunnels_of(toggled(view, name, state, fired, signal)) =~= tunnels_of(view));
    assert(tunnels_of(observe_all(view, all_fired)) =~= tunnels_of(view));
    assert(tunnels_of(disconnect_all(view)) =~= tunnels_of(view));
}

/// Whether a collection is well formed rests on its tunnels alone, so
/// whatever keeps the tunnels keeps it well formed.
pub proof fn law_well_formed_by_tunnels(a: Seq<ConnectionView>, b: Seq<ConnectionView>)
    requires
        tunnels_of(a) == tunnels_of(b),
    ensures
        well_formed(a) == well_formed(b),
{
    if well_formed(a) {
        lemma_well_formed_carries(a, b);
    }
    if well_formed(b) {
        lemma_well_formed_carries(b, a);
    }
}

/// In a collection with distinct names, a name picks the one connection
/// that has it.
pub proof fn law_name_picks_one(view: Seq<ConnectionView>, name: Seq<char>, i: int)
    requires
        names_distinct(view),
        0 <= i < view.len(),
        view[i].tunnel.name@ == name,
    ensures
        knows(view, name),
        first_named(view, name) == i,
        forall|j: int| 0 <= j < view.len() && j != i ==> (#[trigger] view[j]).tunnel.name@ != name,
{
    assert forall|j: int| 0 <= j < view.len() && j != i implies (
    #[trigger] view[j]).tunnel.name@ != name by {
        if j < i {
            assert(view[j].tunnel.name@ != view[i].tunnel.name@);
        } else {
            assert(view[i].tunnel.name@ != view[j].tunnel.name@);
        }
    }
    assert(is_first_named(view, name, i));
    lemma_first_named(view, name, i);
}

/// A listing of containers is in the order of the states.
pub proof fn law_containers_ordered(items: Seq<ItemView>, i: int, j: int)
    requires
        0 <= i <= j < by_state(items).len(),
    ensures
        rank(by_state(items)[i].state) <= rank(by_state(items)[j].state),
{
    broadcast use Seq::lemma_filter_pred;

    let a = in_state(items, PodmanState::Running);
    let b = in_state(items, PodmanState::Stopping);
    let c = in_state(items, PodmanState::Stopped);
    let d = in_state(items, PodmanState::Exited);
    lemma_states_of_parts(items, i);
    lemma_states_of_parts(items, j);
}

/// Ordering a listing by state keeps, among the items of one state, the
/// order that they had.
pub proof fn law_containers_order_kept(items: Seq<ItemView>, state: PodmanState)
    ensures
        in_state(by_state(items), state) == in_state(items, state),
{
    broadcast use Seq::filter_distributes_over_add;

    lemma_in_state_twice(items, PodmanState::Running, state);
    lemma_in_state_twice(items, PodmanState::Stopping, state);
    lemma_in_state_twice(items, PodmanState::Stopped, state);
    lemma_in_state_twice(items, PodmanState::Exited, state);
    let none = Seq::<ItemView>::empty();
    let kept = in_state(items, state);
    assert(none + kept =~= kept);
    assert(kept + none =~= kept);
    assert(none + none =~= none);
}

/// Ordering a listing by state neither drops an item nor adds one.
pub proof fn law_containers_all_kept(items: Seq<ItemView>)
    ensures
        by_state(items).to_multiset() == items.to_multiset(),
        by_state(items).len() == items.len(),
    decreases items.len(),
{
    broadcast use vstd::multiset::group_multiset_axioms;
    broadcast use vstd::seq_lib::group_to_multiset_ensures;
    broadcast use vstd::seq_lib::lemma_multiset_commutative;

    if items.len() == 0 {
        reveal(Seq::filter);
        assert(by_state(items) =~= items);
    } else {
        let rest = items.drop_last();
        let last = items.last();
        assert(rest.push(last) =~= items);
        law_containers_all_kept(rest);
        rest.lemma_filter_push(last, |item: ItemView| item.state == PodmanState::Running);
        rest.lemma_filter_push(last, |item: ItemView| item.state == PodmanState::Stopping);
        rest.lemma_filter_push(last, |item: ItemView| item.state == PodmanState::Stopped);
        rest.lemma_filter_push(last, |item: ItemView| item.state == PodmanState::Exited);
        assert(by_state(items).to_multiset() =~= by_state(rest).to_multiset().insert(last));
        assert(items.to_multiset() =~= rest.to_multiset().insert(last));
    }
    assert(by_state(items).to_multiset().len() == items.to_multiset().len());
}

/// Every item of an ordered listing has the state of the part it stands in.
proof fn lemma_states_of_parts(items: Seq<ItemView>, i: int)
    requires
        0 <= i < by_state(items).len(),
    ensures
        ({
            let a = in_state(items, PodmanState::Running).len();
            let b = in_state(items, PodmanState::Stopping).len();
            let c = in_state(items, PodmanState::Stopped).len();
            let state = by_state(items)[i].state;
            &&& i < a ==> state == PodmanState::Running
            &&& a <= i < a + b ==> state == PodmanState::Stopping
            &&& a + b <= i < a + b + c ==> state == PodmanState::Stopped
            &&& a + b + c <= i ==> state == PodmanState::Exited
        }),
{
    broadcast use Seq::lemma_filter_pred;

    let a = in_state(items, PodmanState::Running);
    let b = in_state(items, PodmanState::Stopping);
    let c = in_state(items, PodmanState::Stopped);
    let d = in_state(items, PodmanState::Exited);
    if i < a.len() {
        assert(by_state(items)[i] == a[i]);
    } else if i < a.len() + b.len() {
        assert(by_state(items)[i] == b[i - a.len()]);
    } else if i < a.len() + b.len() + c.len() {
        assert(by_state(items)[i] == c[i - a.len() - b.len()]);
    } else {
        assert(by_state(items)[i] == d[i - a.len() - b.len() - c.len()]);
    }
}

/// Among the items of one state, those of another are none, and those of
/// the same state are all.
proof fn lemma_in_state_twice(items: Seq<ItemView>, first: PodmanState, second: PodmanState)
    ensures
        in_state(in_state(items, first), second) == if first == second {
            in_state(items, first)
        } else {
            Seq::<ItemView>::empty()
        },
    decreases items.len(),
{
    reveal(Seq::filter);
    if items.len() > 0 {
        let rest = items.drop_last();
        let last = items.last();
        assert(rest.push(last) =~= items);
        lemma_in_state_twice(rest, first, second);
        rest.lemma_filter_push(last, |item: ItemView| item.state == first);
        if last.state == first {
            in_state(rest, first).lemma_filter_push(last, |item: ItemView| item.state == second);
        }
    }
}

/// One direction of [`law_well_formed_by_tunnels`].
proof fn lemma_well_formed_carries(a: Seq<ConnectionView>, b: Seq<ConnectionView>)
    requires
        tunnels_of(a) == tunnels_of(b),
        well_formed(a),
    ensures
        well_formed(b),
{
    assert(a.len() == tunnels_of(a).len());
    assert(b.len() == tunnels_of(b).len());
    assert forall|i: int| 0 <= i < b.len() implies (#[trigger] b[i]).tunnel == a[i].tunnel by {
        assert(tunnels_of(a)[i] == a[i].tunnel);
        assert(tunnels_of(b)[i] == b[i].tunnel);
    }
    assert forall|i: int| 0 <= i < b.len() implies (#[trigger] b[i]).tunnel.well_formed() by {
        assert(a[i].tunnel.well_formed());
    }
    assert forall|i: int, j: int| 0 <= i < j < b.len() implies (#[trigger] b[i]).tunnel.name@ != (
    #[trigger] b[j]).tunnel.name@ by {
        assert(a[i].tunnel.name@ != a[j].tunnel.name@);
        assert(b[i].tunnel == a[i].tunnel);
        assert(b[j].tunnel == a[j].tunnel);
    }
}

} // verus!
