//! A tunnel and its processes over time.
//!
//! A connection records at most one session, but the processes themselves
//! live outside it: one is started for each session and runs until it ends
//! by itself or its signal fires. This module follows both together through
//! every order of requests and ends, and shows that no tunnel is ever served
//! by two processes at once.

use crate::connection::ConnectionView;
use crate::tunnel::Tunnel;
use tokio_util::sync::CancellationToken;
use vstd::prelude::*;

verus! {

/// A connection together with the signals whose process is running. A
/// signal has fired exactly when no process runs for it: the waiting task
/// fires it when the process ends, and kills the process when it fires.
pub struct Served {
    pub connection: ConnectionView,
    pub running: Set<CancellationToken>,
}

/// What can happen to a tunnel.
pub enum Event {
    /// A request to connect, for which this signal was made.
    Connect(CancellationToken),
    /// A request to disconnect.
    Disconnect,
    /// An observation of the connection.
    Observe,
    /// The process of this signal ends by itself.
    Exit(CancellationToken),
}

impl Served {
    /// An idle connection for `tunnel`, with no process.
    pub open spec fn start(tunnel: Tunnel) -> Served {
        Served { connection: ConnectionView::idle(tunnel), running: Set::empty() }
    }

    /// Whether the signal of the recorded session has fired.
    pub open spec fn fired(self) -> bool {
        match self.connection.session {
            Some(signal) => !self.running.contains(signal),
            None => false,
        }
    }

    /// Whether `event` can happen: a signal made for a request is new, so no
    /// process runs for it yet.
    pub open spec fn admits(self, event: Event) -> bool {
        match event {
            Event::Connect(signal) => !self.running.contains(signal),
            _ => true,
        }
    }

    /// The tunnel after `event`. The connection changes as
    /// [`ConnectionView::connect`], [`ConnectionView::disconnect`] and
    /// [`ConnectionView::observe`] say; a process is started where a request
    /// to connect launches one, and stopped where its signal is fired.
    pub open spec fn step(self, event: Event) -> Served {
        match event {
            Event::Connect(signal) => Served {
                connection: self.connection.connect(self.fired(), signal),
                running: if self.connection.launches(self.fired()) {
                    self.running.insert(signal)
                } else {
                    self.running
                },
            },
            Event::Disconnect => Served {
                connection: self.connection.disconnect(),
                running: match self.connection.session {
                    Some(signal) => self.running.remove(signal),
                    None => self.running,
                },
            },
            Event::Observe => Served {
                connection: self.connection.observe(self.fired()),
                running: self.running,
            },
            Event::Exit(signal) => Served {
                connection: self.connection,
                running: self.running.remove(signal),
            },
        }
    }

    /// Whether every event of `events` can happen in its turn.
    pub open spec fn admits_all(self, events: Seq<Event>) -> bool
        decreases events.len(),
    {
        events.len() > 0 ==> self.admits(events[0]) && self.step(events[0]).admits_all(
            events.drop_first(),
        )
    }

    /// The tunnel after `events`, in order.
    pub open spec fn run(self, events: Seq<Event>) -> Served
        decreases events.len(),
    {
        if events.len() == 0 {
            self
        } else {
            self.step(events[0]).run(events.drop_first())
        }
    }

    /// No process runs but that of the recorded session: either none runs,
    /// or exactly the one whose signal the connection holds.
    pub open spec fn one_process(self) -> bool {
        ||| self.running == Set::<CancellationToken>::empty()
        ||| self.connection.session is Some && self.running == set![self.connection.session->0]
    }
}

/// A tunnel starts with no process.
pub proof fn law_starts_with_no_process(tunnel: Tunnel)
    ensures
        Served::start(tunnel).one_process(),
        Served::start(tunnel).running.len() == 0,
{
}

/// No event gives a tunnel a second process.
pub proof fn law_step_keeps_one_process(served: Served, event: Event)
    requires
        served.one_process(),
        served.admits(event),
    ensures
        served.step(event).one_process(),
        served.step(event).connection.tunnel == served.connection.tunnel,
{
    let after = served.step(event);
    match event {
        Event::Connect(signal) => {
            if served.connection.launches(served.fired()) {
                assert(served.running =~= Set::<CancellationToken>::empty());
                assert(after.running =~= set![signal]);
            }
        },
        Event::Disconnect => {
            assert(after.running =~= Set::<CancellationToken>::empty());
        },
        Event::Observe => {
            if !served.connection.alive(served.fired()) {
                assert(served.running =~= Set::<CancellationToken>::empty());
            }
        },
        Event::Exit(signal) => {
            if served.running.contains(signal) {
                assert(after.running =~= Set::<CancellationToken>::empty());
            } else {
                assert(after.running =~= served.running);
            }
        },
    }
}

/// Whatever happens to a tunnel, in whatever order, it is served by at most
/// one process, and by none while its connection is idle.
pub proof fn law_at_most_one_process(tunnel: Tunnel, events: Seq<Event>)
    requires
        Served::start(tunnel).admits_all(events),
    ensures
        Served::start(tunnel).run(events).one_process(),
        Served::start(tunnel).run(events).running.finite(),
        Served::start(tunnel).run(events).running.len() <= 1,
        !Served::start(tunnel).run(events).connection.is_active() ==> Served::start(tunnel).run(
            events,
        ).running.len() == 0,
        Served::start(tunnel).run(events).connection.tunnel == tunnel,
{
    lemma_run_keeps_one_process(Served::start(tunnel), events);
    let end = Served::start(tunnel).run(events);
    if end.running == Set::<CancellationToken>::empty() {
    } else {
        assert(end.running.len() == 1);
    }
}

/// Asking twice in a row to connect starts exactly one process where none
/// ran, and none where one ran.
pub proof fn law_connect_twice(served: Served, first: CancellationToken, second: CancellationToken)
    requires
        served.one_process(),
        served.admits(Event::Connect(first)),
        served.step(Event::Connect(first)).admits(Event::Connect(second)),
    ensures
        served.step(Event::Connect(first)).step(Event::Connect(second)) == served.step(
            Event::Connect(first),
        ),
        served.step(Event::Connect(first)).running.len() == 1,
        served.step(Event::Connect(first)).connection.is_active(),
{
    law_step_keeps_one_process(served, Event::Connect(first));
    let once = served.step(Event::Connect(first));
    if served.connection.launches(served.fired()) {
        assert(served.running =~= Set::<CancellationToken>::empty());
        assert(once.running =~= set![first]);
    } else {
        assert(once.running =~= set![served.connection.session->0]);
    }
}

/// A process that ends by itself is found out by the next observation,
/// which leaves the connection idle.
pub proof fn law_exit_then_observe(served: Served)
    requires
        served.one_process(),
        served.connection.is_active(),
    ensures
        !served.step(Event::Exit(served.connection.session->0)).step(
            Event::Observe,
        ).connection.is_active(),
        served.step(Event::Exit(served.connection.session->0)).step(Event::Observe).running.len()
            == 0,
{
    let signal = served.connection.session->0;
    let after = served.step(Event::Exit(signal)).step(Event::Observe);
    assert(after.running =~= Set::<CancellationToken>::empty());
}

/// Events keep the tunnel and the bound of one process, one after another.
proof fn lemma_run_keeps_one_process(served: Served, events: Seq<Event>)
    requires
        served.one_process(),
        served.admits_all(events),
    ensures
        served.run(events).one_process(),
        served.run(events).connection.tunnel == served.connection.tunnel,
    decreases events.len(),
{
    if events.len() > 0 {
        law_step_keeps_one_process(served, events[0]);
        lemma_run_keeps_one_process(served.step(events[0]), events.drop_first());
    }
}

} // verus!
