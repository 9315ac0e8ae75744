//! The ordered collection of tunnel connections.
//!
//! Every operation that may change a connection takes the collection by
//! `&mut`, so each runs alone on it: a listing can never see half of a
//! toggle. Callers that share the collection keep it behind one lock and
//! hold the lock for the length of a call.

use crate::commands::{ListTunnelResponse, TunnelState, TunnelStatus};
use crate::connection::{ConnectionView, SSHTunnelConnection};
use crate::tunnel::Tunnel;
use tokio_util::sync::CancellationToken;
use vstd::prelude::*;
use vstd::string::*;

verus! {

/// What a listing reports of a connection.
pub open spec fn status_of(connection: ConnectionView) -> TunnelStatus {
    if connection.is_active() {
        TunnelStatus::Connected(connection.tunnel.local_port)
    } else {
        TunnelStatus::Disconnected
    }
}

/// The listing of a collection: name and status of each connection, in order.
pub open spec fn snapshot(view: Seq<ConnectionView>) -> Seq<(Seq<char>, TunnelStatus)> {
    Seq::new(view.len(), |i: int| (view[i].tunnel.name@, status_of(view[i])))
}

/// Whether the signal of connection `i` counts as fired under `fired`, which
/// is read as `false` beyond its end.
pub open spec fn fired_at(fired: Seq<bool>, i: int) -> bool {
    0 <= i < fired.len() && fired[i]
}

/// The collection after each connection has been observed, `fired` saying
/// of each whether its signal has fired.
pub open spec fn observe_all(view: Seq<ConnectionView>, fired: Seq<bool>) -> Seq<ConnectionView> {
    Seq::new(view.len(), |i: int| view[i].observe(fired_at(fired, i)))
}

/// Whether `i` is the place of the first connection named `name`.
pub open spec fn is_first_named(view: Seq<ConnectionView>, name: Seq<char>, i: int) -> bool {
    &&& 0 <= i < view.len()
    &&& view[i].tunnel.name@ == name
    &&& forall|j: int| 0 <= j < i ==> (#[trigger] view[j]).tunnel.name@ != name
}

/// Whether some connection is named `name`.
pub open spec fn knows(view: Seq<ConnectionView>, name: Seq<char>) -> bool {
    exists|i: int| 0 <= i < view.len() && (#[trigger] view[i]).tunnel.name@ == name
}

/// The place of the first connection named `name`, where there is one.
pub open spec fn first_named(view: Seq<ConnectionView>, name: Seq<char>) -> int {
    choose|i: int| is_first_named(view, name, i)
}

/// The tunnels of a collection, in order.
pub open spec fn tunnels_of(view: Seq<ConnectionView>) -> Seq<Tunnel> {
    Seq::new(view.len(), |i: int| view[i].tunnel)
}

/// Whether no two connections have one name.
pub open spec fn names_distinct(view: Seq<ConnectionView>) -> bool {
    forall|i: int, j: int|
        0 <= i < j < view.len() ==> (#[trigger] view[i]).tunnel.name@ != (
        #[trigger] view[j]).tunnel.name@
}

/// What a collection is meant to satisfy: every tunnel is well formed, and
/// no two have one name, so that a name picks one tunnel.
pub open spec fn well_formed(view: Seq<ConnectionView>) -> bool {
    &&& names_distinct(view)
    &&& forall|i: int| 0 <= i < view.len() ==> (#[trigger] view[i]).tunnel.well_formed()
}

/// That `i` is the first place of `name` makes `name` known, and makes `i`
/// the place that [`first_named`] picks.
pub proof fn lemma_first_named(view: Seq<ConnectionView>, name: Seq<char>, i: int)
    requires
        is_first_named(view, name, i),
    ensures
        knows(view, name),
        first_named(view, name) == i,
{
    let picked = first_named(view, name);
    assert(is_first_named(view, name, picked));
    if picked < i {
        assert(view[picked].tunnel.name@ != name);
    }
    if i < picked {
        assert(view[i].tunnel.name@ != name);
    }
}

/// Where some connection at or before `upto` is named `name`, a first one
/// is.
pub proof fn lemma_least_place(view: Seq<ConnectionView>, name: Seq<char>, upto: int)
    requires
        0 <= upto < view.len(),
        view[upto].tunnel.name@ == name,
    ensures
        knows(view, name),
        is_first_named(view, name, first_named(view, name)),
        first_named(view, name) <= upto,
    decreases upto,
{
    if forall|j: int| 0 <= j < upto ==> (#[trigger] view[j]).tunnel.name@ != name {
        assert(is_first_named(view, name, upto));
        lemma_first_named(view, name, upto);
    } else {
        let earlier = choose|j: int| 0 <= j < upto && (#[trigger] view[j]).tunnel.name@ == name;
        lemma_least_place(view, name, earlier);
    }
}

/// The collection after a request to bring the tunnel named `name` into
/// `state`. The first connection of that name connects or disconnects; with
/// no connection of that name nothing changes. `fired` says whether the
/// signal of that connection's session has fired, and `signal` is the signal
/// made for the request.
pub open spec fn toggled(
    view: Seq<ConnectionView>,
    name: Seq<char>,
    state: TunnelState,
    fired: bool,
    signal: CancellationToken,
) -> Seq<ConnectionView> {
    if knows(view, name) {
        let i = first_named(view, name);
        match state {
            TunnelState::On => view.update(i, view[i].connect(fired, signal)),
            TunnelState::Off => view.update(i, view[i].disconnect()),
        }
    } else {
        view
    }
}

/// The place of the connection for which a request to bring the tunnel
/// named `name` into `state` has a process started, if it has.
pub open spec fn launch_of(
    view: Seq<ConnectionView>,
    name: Seq<char>,
    state: TunnelState,
    fired: bool,
) -> Option<usize> {
    if knows(view, name) && state == TunnelState::On && view[first_named(view, name)].launches(
        fired,
    ) {
        Some(first_named(view, name) as usize)
    } else {
        None
    }
}

/// Idle connections for `tunnels`, in order.
pub open spec fn idle_all(tunnels: Seq<Tunnel>) -> Seq<ConnectionView> {
    Seq::new(tunnels.len(), |i: int| ConnectionView::idle(tunnels[i]))
}

/// The collection after every connection was disconnected.
pub open spec fn disconnect_all(view: Seq<ConnectionView>) -> Seq<ConnectionView> {
    Seq::new(view.len(), |i: int| view[i].disconnect())
}

/// A process to start: the place of the connection it is for, and a handle
/// on the signal of the session that was recorded for it.
#[derive(Debug)]
pub struct Launch {
    pub index: usize,
    pub signal: CancellationToken,
}

/// The place that a launch names, if there is a launch.
pub open spec fn launch_place(launch: Option<Launch>) -> Option<usize> {
    match launch {
        Some(l) => Some(l.index),
        None => None,
    }
}

/// The process of the tunnel at place `index` could not be started.
#[derive(PartialEq, Eq, Structural, Debug, Copy, Clone)]
pub struct SpawnError {
    pub index: usize,
}

/// A collection of tunnel connections, in the order in which they were given.
pub struct SSHTunnels(Vec<SSHTunnelConnection>);

impl View for SSHTunnels {
    type V = Seq<ConnectionView>;

    closed spec fn view(&self) -> Seq<ConnectionView> {
        self.0@.map_values(|c: SSHTunnelConnection| c@)
    }
}

impl SSHTunnels {
    /// A collection with no tunnel in it.
    pub fn new() -> (tunnels: SSHTunnels)
        ensures
            tunnels@ == Seq::<ConnectionView>::empty(),
    {
        let tunnels = SSHTunnels(Vec::new());
        assert(tunnels@ =~= Seq::<ConnectionView>::empty());
        tunnels
    }

    /// The number of connections.
    pub fn len(&self) -> (n: usize)
        ensures
            n == self@.len(),
    {
        self.0.len()
    }

    /// The tunnel at place `index`, if there is one.
    pub fn tunnel(&self, index: usize) -> (tunnel: Option<&Tunnel>)
        ensures
            index < self@.len() ==> tunnel == Some(&self@[index as int].tunnel),
            index >= self@.len() ==> tunnel is None,
    {
        if index < self.0.len() {
            Some(self.0[index].tunnel())
        } else {
            None
        }
    }

    /// The place of the first connection named `name`.
    pub fn position(&self, name: &str) -> (place: Option<usize>)
        ensures
            match place {
                Some(i) => is_first_named(self@, name@, i as int),
                None => !knows(self@, name@),
            },
    {
        let wanted = String::from_str(name);
        let mut i: usize = 0;
        while i < self.0.len()
            invariant
                i <= self.0.len(),
                wanted@ == name@,
                forall|j: int| 0 <= j < i ==> (#[trigger] self@[j]).tunnel.name@ != name@,
            decreases self.0.len() - i,
        {
            if self.0[i].tunnel().name == wanted {
                return Some(i);
            }
            i += 1;
        }
        None
    }

    /// Tests [`well_formed`] on the collection.
    pub fn is_well_formed(&self) -> (ok: bool)
        ensures
            ok == well_formed(self@),
    {
        let n = self.len();
        let mut i: usize = 0;
        while i < n
            invariant
                i <= n,
                n == self@.len(),
                forall|k: int| 0 <= k < i ==> (#[trigger] self@[k]).tunnel.well_formed(),
                forall|k: int, j: int|
                    0 <= k < j < i ==> (#[trigger] self@[k]).tunnel.name@ != (
                    #[trigger] self@[j]).tunnel.name@,
            decreases n - i,
        {
            let tunnel = self.0[i].tunnel();
            if !tunnel.is_well_formed() {
                return false;
            }
            let place = self.position(tunnel.name.as_str());
            match place {
                Some(first) => {
                    if first != i {
                        assert(self@[first as int].tunnel.name@ == self@[i as int].tunnel.name@);
                        return false;
                    }
                },
                None => {
                    assert(self@[i as int].tunnel.name@ == tunnel.name@);
                    return false;
                },
            }
            i += 1;
        }
        true
    }

    /// Whether the collection would be well formed with `tunnels` appended.
    pub fn admits(&self, tunnels: &Vec<Tunnel>) -> (ok: bool)
        ensures
            ok == well_formed(self@ + idle_all(tunnels@)),
    {
        let ghost whole = self@ + idle_all(tunnels@);
        if !self.is_well_formed() {
            proof {
                if well_formed(whole) {
                    assert forall|i: int| 0 <= i < self@.len() implies (
                    #[trigger] self@[i]).tunnel.well_formed() by {
                        assert(whole[i] == self@[i]);
                    }
                    assert forall|i: int, j: int| 0 <= i < j < self@.len() implies (
                    #[trigger] self@[i]).tunnel.name@ != (#[trigger] self@[j]).tunnel.name@ by {
                        assert(whole[i] == self@[i]);
                        assert(whole[j] == self@[j]);
                    }
                }
            }
            return false;
        }
        let n = tunnels.len();
        let mut k: usize = 0;
        while k < n
            invariant
                k <= n,
                n == tunnels@.len(),
                whole == self@ + idle_all(tunnels@),
                well_formed(whole.take(self@.len() + k)),
            decreases n - k,
        {
            let ghost at = self@.len() + k;
            let tunnel = &tunnels[k];
            assert(whole[at].tunnel == *tunnel);
            if !tunnel.is_well_formed() {
                return false;
            }
            if self.position(tunnel.name.as_str()).is_some() {
                proof {
                    let clash = choose|i: int|
                        0 <= i < self@.len() && (#[trigger] self@[i]).tunnel.name@ == tunnel.name@;
                    assert(whole[clash] == self@[clash]);
                }
                return false;
            }
            let mut j: usize = 0;
            while j < k
                invariant
                    j <= k,
                    k < n,
                    n == tunnels@.len(),
                    *tunnel == tunnels@[k as int],
                    whole == self@ + idle_all(tunnels@),
                    forall|m: int| 0 <= m < j ==> (#[trigger] tunnels@[m]).name@ != tunnel.name@,
                decreases k - j,
            {
                if tunnels[j].name == tunnel.name {
                    proof {
                        assert(whole[self@.len() + j].tunnel == tunnels@[j as int]);
                        assert(whole[self@.len() + k].tunnel == tunnels@[k as int]);
                    }
                    return false;
                }
                j += 1;
            }
            proof {
                let before = whole.take(at);
                let now = whole.take(at + 1);
                assert forall|i: int| 0 <= i < now.len() implies (
                #[trigger] now[i]).tunnel.well_formed() by {
                    if i < at {
                        assert(before[i] == now[i]);
                    }
                }
                assert forall|i: int, m: int| 0 <= i < m < now.len() implies (
                #[trigger] now[i]).tunnel.name@ != (#[trigger] now[m]).tunnel.name@ by {
                    if m < at {
                        assert(before[i] == now[i]);
                        assert(before[m] == now[m]);
                    } else if i < self@.len() {
                        assert(now[i] == self@[i]);
                    } else {
                        assert(now[i].tunnel == tunnels@[i - self@.len()]);
                    }
                }
            }
            k += 1;
        }
        assert(whole.take(whole.len() as int) =~= whole);
        true
    }

    /// Asks each session's signal whether it has fired. An idle connection
    /// gets `false`; of an active one either answer may come, since the task
    /// that waits on its process fires the signal when the process ends.
    pub fn signals_fired(&self) -> (fired: Vec<bool>)
        ensures
            fired@.len() == self@.len(),
            forall|i: int| 0 <= i < self@.len() && !(#[trigger] self@[i]).is_active() ==> !fired@[i],
    {
        let mut fired: Vec<bool> = Vec::new();
        let mut i: usize = 0;
        while i < self.0.len()
            invariant
                i <= self.0.len(),
                fired@.len() == i,
                forall|j: int| 0 <= j < i && !(#[trigger] self@[j]).is_active() ==> !fired@[j],
            decreases self.0.len() - i,
        {
            fired.push(self.0[i].signal_fired());
            i += 1;
        }
        fired
    }

    /// Observes the connection at place `index`.
    fn observe_at(&mut self, index: usize, fired: bool) -> (connected: bool)
        requires
            index < old(self)@.len(),
        ensures
            final(self)@ == old(self)@.update(index as int, old(self)@[index as int].observe(fired)),
            connected == old(self)@[index as int].alive(fired),
    {
        let connected = self.0[index].observe(fired);
        assert(self@ =~= old(self)@.update(index as int, old(self)@[index as int].observe(fired)));
        connected
    }

    /// Observes every connection, `fired` saying of each whether its
    /// session's signal has fired: the sessions whose signal has fired are
    /// dropped. Connections beyond the end of `fired` count as not fired.
    pub fn observe_all(&mut self, fired: &Vec<bool>)
        ensures
            final(self)@ == observe_all(old(self)@, fired@),
    {
        let n = self.len();
        let mut i: usize = 0;
        while i < n
            invariant
                i <= n,
                n == old(self)@.len(),
                self@.len() == n,
                forall|j: int|
                    0 <= j < i ==> (#[trigger] self@[j]) == old(self)@[j].observe(
                        fired_at(fired@, j),
                    ),
                forall|j: int| i <= j < n ==> (#[trigger] self@[j]) == old(self)@[j],
            decreases n - i,
        {
            let gone = i < fired.len() && fired[i];
            self.observe_at(i, gone);
            i += 1;
        }
        assert(self@ =~= observe_all(old(self)@, fired@));
    }

    /// Lists the tunnels after observing every connection, `fired` saying of
    /// each whether its session's signal has fired.
    pub fn list_given(&mut self, fired: &Vec<bool>) -> (response: ListTunnelResponse)
        ensures
            final(self)@ == observe_all(old(self)@, fired@),
            response@ == snapshot(final(self)@),
    {
        self.observe_all(fired);
        self.snapshot()
    }

    /// Lists the tunnels: name and status of each, in order. Every
    /// connection is observed first, so a session whose process has ended is
    /// dropped and its tunnel is listed as disconnected. The listing shows
    /// the collection as this call leaves it.
    pub fn list(&mut self) -> (response: ListTunnelResponse)
        ensures
            response@ == snapshot(final(self)@),
            final(self)@.len() == old(self)@.len(),
            forall|i: int|
                0 <= i < old(self)@.len() ==> (#[trigger] final(self)@[i]) == old(self)@[i]
                    || final(self)@[i] == old(self)@[i].disconnect(),
    {
        let fired = self.signals_fired();
        self.list_given(&fired)
    }

    /// Handles a request to bring the tunnel named `id` into `state`, where
    /// `signal` was made for the request and `fired` says whether the signal
    /// of that tunnel's session has fired. Returns the place of the
    /// connection for which a process has to be started, if any.
    pub fn apply_toggle(
        &mut self,
        id: &str,
        state: TunnelState,
        fired: bool,
        signal: CancellationToken,
    ) -> (launch: Option<usize>)
        ensures
            final(self)@ == toggled(old(self)@, id@, state, fired, signal),
            launch == launch_of(old(self)@, id@, state, fired),
    {
        match self.position(id) {
            None => None,
            Some(index) => {
                proof {
                    lemma_first_named(self@, id@, index as int);
                }
                match state {
                    TunnelState::On => {
                        if self.install_at(index, fired, signal) {
                            Some(index)
                        } else {
                            None
                        }
                    },
                    TunnelState::Off => {
                        self.disconnect_at(index);
                        None
                    },
                }
            },
        }
    }

    /// Brings the tunnel named `id` into `state`. The first connection of
    /// that name connects or disconnects; a name that no connection has is
    /// ignored. Where a session was recorded, the result names the connection
    /// and carries a handle on the session's signal: the caller starts the
    /// process and reports with [`SSHTunnels::settle_launch`].
    pub fn toggle(&mut self, id: &str, state: TunnelState) -> (launch: Option<Launch>)
        ensures
            !knows(old(self)@, id@) ==> final(self)@ == old(self)@ && launch is None,
            exists|fired: bool, signal: CancellationToken|
                final(self)@ == #[trigger] toggled(old(self)@, id@, state, fired, signal)
                    && launch_place(launch) == launch_of(old(self)@, id@, state, fired),
    {
        let signal = CancellationToken::new();
        let watch = signal.clone();
        let fired = match self.position(id) {
            Some(index) => self.0[index].signal_fired(),
            None => false,
        };
        let ghost given = signal;
        let launch = match self.apply_toggle(id, state, fired, signal) {
            Some(index) => Some(Launch { index, signal: watch }),
            None => None,
        };
        assert(self@ == toggled(old(self)@, id@, state, fired, given));
        launch
    }

    /// Takes the report on a process that was to be started for the
    /// connection at place `index`. A process that started leaves the
    /// collection as it is. One that did not start makes the connection idle
    /// again, and the failure is returned.
    pub fn settle_launch(&mut self, index: usize, started: bool) -> (settled: Result<
        (),
        SpawnError,
    >)
        ensures
            started ==> settled is Ok && final(self)@ == old(self)@,
            !started ==> settled == Err::<(), SpawnError>(SpawnError { index }),
            !started && index < old(self)@.len() ==> final(self)@ == old(self)@.update(
                index as int,
                old(self)@[index as int].disconnect(),
            ),
            !started && index >= old(self)@.len() ==> final(self)@ == old(self)@,
    {
        if started {
            Ok(())
        } else {
            if index < self.len() {
                self.disconnect_at(index);
            }
            Err(SpawnError { index })
        }
    }

    /// Appends idle connections for `tunnels`, in order. The connections
    /// already held keep their place and their state.
    pub fn extend(&mut self, tunnels: Vec<Tunnel>)
        ensures
            final(self)@ == old(self)@ + idle_all(tunnels@),
    {
        for tunnel in it: tunnels
            invariant
                self@ =~= old(self)@ + idle_all(it.seq().take(it.index() as int)),
                it.seq() == tunnels@,
        {
            let ghost done = it.seq().take(it.index() as int);
            self.push(tunnel);
            assert(it.seq().take(it.index() + 1) =~= done.push(tunnel));
            assert(idle_all(done.push(tunnel)) =~= idle_all(done).push(ConnectionView::idle(tunnel)));
        }
        assert(tunnels@.take(tunnels@.len() as int) =~= tunnels@);
    }

    /// Appends an idle connection for `tunnel`.
    pub fn push(&mut self, tunnel: Tunnel)
        ensures
            final(self)@ == old(self)@.push(ConnectionView::idle(tunnel)),
    {
        self.0.push(SSHTunnelConnection::from(tunnel));
        assert(self@ =~= old(self)@.push(ConnectionView::idle(tunnel)));
    }

    /// A collection of idle connections for `tunnels`, in order.
    pub fn from_tunnels(tunnels: Vec<Tunnel>) -> (held: SSHTunnels)
        ensures
            held@ == idle_all(tunnels@),
    {
        let mut held = SSHTunnels::new();
        held.extend(tunnels);
        assert(held@ =~= idle_all(tunnels@));
        held
    }

    /// A collection of idle connections for `tunnels`, where that collection
    /// is well formed, and nothing where it is not.
    pub fn checked(tunnels: Vec<Tunnel>) -> (held: Option<SSHTunnels>)
        ensures
            held is Some <==> well_formed(idle_all(tunnels@)),
            held is Some ==> held->0@ == idle_all(tunnels@),
    {
        let held = SSHTunnels::from_tunnels(tunnels);
        if held.is_well_formed() {
            Some(held)
        } else {
            None
        }
    }

    /// Appends idle connections for `tunnels` where the collection is well
    /// formed with them, and tells whether it did. Otherwise the collection
    /// is left as it is.
    pub fn try_extend(&mut self, tunnels: Vec<Tunnel>) -> (extended: bool)
        ensures
            extended == well_formed(old(self)@ + idle_all(tunnels@)),
            extended ==> final(self)@ == old(self)@ + idle_all(tunnels@),
            !extended ==> final(self)@ == old(self)@,
    {
        if self.admits(&tunnels) {
            self.extend(tunnels);
            true
        } else {
            false
        }
    }

    /// Disconnects every tunnel: each session's signal is fired and the
    /// session forgotten. For use before the collection is given up.
    pub fn shutdown(&mut self)
        ensures
            final(self)@ == disconnect_all(old(self)@),
    {
        let n = self.len();
        let mut i: usize = 0;
        while i < n
            invariant
                i <= n,
                n == old(self)@.len(),
                self@.len() == n,
                forall|j: int| 0 <= j < i ==> (#[trigger] self@[j]) == old(self)@[j].disconnect(),
                forall|j: int| i <= j < n ==> (#[trigger] self@[j]) == old(self)@[j],
            decreases n - i,
        {
            self.disconnect_at(i);
            i += 1;
        }
        assert(self@ =~= disconnect_all(old(self)@));
    }

    /// Handles a request to connect at place `index`.
    fn install_at(&mut self, index: usize, fired: bool, signal: CancellationToken) -> (launch: bool)
        requires
            index < old(self)@.len(),
        ensures
            final(self)@ == old(self)@.update(
                index as int,
                old(self)@[index as int].connect(fired, signal),
            ),
            launch == old(self)@[index as int].launches(fired),
    {
        let launch = self.0[index].install(fired, signal);
        assert(self@ =~= old(self)@.update(
            index as int,
            old(self)@[index as int].connect(fired, signal),
        ));
        launch
    }

    /// Disconnects the connection at place `index`.
    fn disconnect_at(&mut self, index: usize)
        requires
            index < old(self)@.len(),
        ensures
            final(self)@ == old(self)@.update(index as int, old(self)@[index as int].disconnect()),
    {
        self.0[index].disconnect();
        assert(self@ =~= old(self)@.update(index as int, old(self)@[index as int].disconnect()));
    }

    /// The listing of the collection as it stands, with no look at the
    /// sessions' signals.
    pub fn snapshot(&self) -> (response: ListTunnelResponse)
        ensures
            response@ == snapshot(self@),
    {
        let mut entries: Vec<(String, TunnelStatus)> = Vec::new();
        let mut i: usize = 0;
        while i < self.0.len()
            invariant
                i <= self.0.len(),
                entries@.len() == i,
                forall|j: int|
                    0 <= j < i ==> (#[trigger] entries@[j]).0@ == self@[j].tunnel.name@
                        && entries@[j].1 == status_of(self@[j]),
            decreases self.0.len() - i,
        {
            let connection = &self.0[i];
            let status = if connection.has_session() {
                TunnelStatus::Connected(connection.tunnel().local_port)
            } else {
                TunnelStatus::Disconnected
            };
            entries.push((connection.tunnel().name.clone(), status));
            i += 1;
        }
        let response = ListTunnelResponse(entries);
        assert(response@ =~= snapshot(self@));
        response
    }
}

} // verus!
