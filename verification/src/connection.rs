//! One tunnel and the session that may be running for it.
//!
//! A connection is *idle* when it holds no session and *active* when it holds
//! one. The session is the cancellation signal that the connection shares
//! with the task waiting on the tunnel's process: the connection fires it to
//! ask for the process to be stopped, and the task fires it when the process
//! has ended by itself. A connection never holds two sessions.

use crate::tunnel::Tunnel;
use tokio_util::sync::CancellationToken;
use vstd::prelude::*;

verus! {

/// What a connection is, to its callers: the tunnel it stands for and the
/// signal of its session, if it has one.
pub struct ConnectionView {
    pub tunnel: Tunnel,
    pub session: Option<CancellationToken>,
}

impl ConnectionView {
    /// A connection for `tunnel` that holds no session.
    pub open spec fn idle(tunnel: Tunnel) -> ConnectionView {
        ConnectionView { tunnel, session: None }
    }

    /// Whether a session is recorded.
    pub open spec fn is_active(self) -> bool {
        self.session is Some
    }

    /// Whether the session is still running, given whether its signal has
    /// `fired`.
    pub open spec fn alive(self, fired: bool) -> bool {
        self.is_active() && !fired
    }

    /// The connection after it has been observed: a session whose signal has
    /// fired is dropped.
    pub open spec fn observe(self, fired: bool) -> ConnectionView {
        if self.alive(fired) {
            self
        } else {
            ConnectionView::idle(self.tunnel)
        }
    }

    /// Whether a request to connect starts a process.
    pub open spec fn launches(self, fired: bool) -> bool {
        !self.alive(fired)
    }

    /// The connection after a request to connect, for which `signal` was
    /// made: a running session is kept, and otherwise `signal` becomes the
    /// session.
    pub open spec fn connect(self, fired: bool, signal: CancellationToken) -> ConnectionView {
        if self.alive(fired) {
            self
        } else {
            ConnectionView { tunnel: self.tunnel, session: Some(signal) }
        }
    }

    /// The connection after a request to disconnect.
    pub open spec fn disconnect(self) -> ConnectionView {
        ConnectionView::idle(self.tunnel)
    }

    /// The number of processes that serve the connection: one while a
    /// session is running, none otherwise.
    pub open spec fn processes(self, fired: bool) -> nat {
        if self.alive(fired) {
            1
        } else {
            0
        }
    }
}

/// A tunnel together with its session, if one is running.
pub struct SSHTunnelConnection {
    task: Option<CancellationToken>,
    tunnel: Tunnel,
}

impl View for SSHTunnelConnection {
    type V = ConnectionView;

    closed spec fn view(&self) -> ConnectionView {
        ConnectionView { tunnel: self.tunnel, session: self.task }
    }
}

impl From<Tunnel> for SSHTunnelConnection {
    /// An idle connection for `tunnel`.
    fn from(tunnel: Tunnel) -> (connection: SSHTunnelConnection)
        ensures
            connection@ == ConnectionView::idle(tunnel),
    {
        SSHTunnelConnection { task: None, tunnel }
    }
}

impl vstd::std_specs::convert::FromSpecImpl<Tunnel> for SSHTunnelConnection {
    open spec fn obeys_from_spec() -> bool {
        true
    }

    closed spec fn from_spec(tunnel: Tunnel) -> SSHTunnelConnection {
        SSHTunnelConnection { task: None, tunnel }
    }
}

/// How the wait on a tunnel's process came to its end.
#[derive(Clone, Copy, Debug, PartialEq, Eq, Structural)]
pub enum SessionEnd {
    /// The process ended by itself.
    Exited,
    /// The signal fired while the process was running.
    Cancelled,
}

/// What the task that waits on a tunnel's process does when the wait is
/// over. After the process has ended by itself the signal is fired, so that
/// the next observation drops the session. After the signal has fired the
/// process is still running: the result tells the task to kill it.
pub fn conclude(end: SessionEnd, signal: &CancellationToken) -> (kill: bool)
    ensures
        kill == (end == SessionEnd::Cancelled),
{
    match end {
        SessionEnd::Exited => {
            signal.cancel();
            false
        },
        SessionEnd::Cancelled => true,
    }
}

impl SSHTunnelConnection {
    /// The tunnel this connection stands for.
    pub fn tunnel(&self) -> (tunnel: &Tunnel)
        ensures
            *tunnel == self@.tunnel,
    {
        &self.tunnel
    }

    /// Whether a session is recorded, without looking at its signal.
    pub fn has_session(&self) -> (active: bool)
        ensures
            active == self@.is_active(),
    {
        self.task.is_some()
    }

    /// Whether the signal of the recorded session has fired; `false` for an
    /// idle connection. The signal is shared with the waiting task, so for an
    /// active connection either answer may come.
    pub fn signal_fired(&self) -> (fired: bool)
        ensures
            !self@.is_active() ==> !fired,
    {
        match &self.task {
            Some(signal) => signal.is_cancelled(),
            None => false,
        }
    }

    /// Brings the record in line with the session's signal, of which `fired`
    /// says whether it has fired, and tells whether the tunnel is connected.
    /// A session that is dropped has its signal fired once more, which does
    /// nothing to a signal that has fired: no session leaves the record with
    /// its process left running.
    pub fn observe(&mut self, fired: bool) -> (connected: bool)
        ensures
            final(self)@ == old(self)@.observe(fired),
            connected == old(self)@.alive(fired),
    {
        if fired {
            self.disconnect();
        }
        self.task.is_some()
    }

    /// Whether the tunnel is connected. A session whose process has ended,
    /// or was told to end, is dropped first, so that a tunnel is never
    /// reported connected on the strength of a stale record.
    pub fn connected(&mut self) -> (connected: bool)
        ensures
            final(self)@.tunnel == old(self)@.tunnel,
            connected == final(self)@.is_active(),
            connected ==> final(self)@ == old(self)@,
            !connected ==> final(self)@ == old(self)@.disconnect(),
    {
        let fired = self.signal_fired();
        self.observe(fired)
    }

    /// Handles a request to connect for which `signal` was made, given
    /// whether the signal of the recorded session has `fired`. Tells whether
    /// `signal` was taken as the new session, in which case a process has to
    /// be started for it.
    pub fn install(&mut self, fired: bool, signal: CancellationToken) -> (launch: bool)
        ensures
            final(self)@ == old(self)@.connect(fired, signal),
            launch == old(self)@.launches(fired),
    {
        if self.observe(fired) {
            false
        } else {
            self.task = Some(signal);
            true
        }
    }

    /// Connects the tunnel. An active connection whose process is running is
    /// left as it is and `None` is returned. Otherwise a session is recorded
    /// and a handle on its signal is returned: the caller starts the process
    /// and hands both to the task that waits on it.
    pub fn connect(&mut self) -> (launch: Option<CancellationToken>)
        ensures
            final(self)@.tunnel == old(self)@.tunnel,
            final(self)@.is_active(),
            launch is None ==> final(self)@ == old(self)@,
            !old(self)@.is_active() ==> launch is Some,
            exists|fired: bool, signal: CancellationToken|
                final(self)@ == #[trigger] old(self)@.connect(fired, signal) && (launch is Some)
                    == old(self)@.launches(fired),
    {
        let signal = CancellationToken::new();
        let fired = self.signal_fired();
        let watch = signal.clone();
        let ghost made = signal;
        let launch = if self.install(fired, signal) {
            Some(watch)
        } else {
            None
        };
        assert(self@ == old(self)@.connect(fired, made));
        launch
    }

    /// Disconnects the tunnel: fires the signal of the session, if there is
    /// one, and forgets the session without waiting for the process to end.
    /// An idle connection is left as it is.
    pub fn disconnect(&mut self)
        ensures
            final(self)@ == old(self)@.disconnect(),
            !old(self)@.is_active() ==> final(self)@ == old(self)@,
    {
        if let Some(signal) = self.task.take() {
            signal.cancel();
        }
    }

    /// Fires the signal of the session, if there is one, and reports whether
    /// the tunnel is connected after that. It never is: a session whose
    /// signal has fired is dropped by the observation that follows.
    pub fn cancel(&mut self) -> (connected: bool)
        ensures
            final(self)@ == old(self)@.disconnect(),
            !connected,
    {
        self.observe(true)
    }
}

} // verus!
