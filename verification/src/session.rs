//! The life cycle of one client connection.
//!
//! A session is created while the connection is still being upgraded. Once
//! the upgrade has succeeded it subscribes to the bus and is handed the one
//! status notification for its client. After the attempt to send that
//! notification, whether or not it reached the client, two duties run side by
//! side: ingest takes in what the client sends, egress forwards what the bus
//! delivers. Neither duty stops the other. Each ends when its own I/O fails,
//! and the session is closed when both have ended.

use crate::frame_bus::Subscription;
use crate::message::{EgressAction, EgressActionView, Inbound, InboundView, SharingStatus};
use crate::relay::{Relay, RelayState};
use vstd::prelude::*;

verus! {

/// Where a session stands in its life.
#[derive(Debug, Clone, Copy, PartialEq, Eq, Structural)]
pub enum SessionState {
    /// The transport is being upgraded.
    Connecting,
    /// The upgrade succeeded and the bus subscription is held. The status
    /// notification is due.
    Announcing,
    /// Both duties run.
    Active,
    /// One duty has ended, the other still runs.
    Closing,
    /// Both duties have ended and the subscription is released.
    Closed,
}

impl SessionState {
    /// The position of a state in the order in which a session passes
    /// through them.
    pub open spec fn rank(self) -> nat {
        match self {
            SessionState::Connecting => 0,
            SessionState::Announcing => 1,
            SessionState::Active => 2,
            SessionState::Closing => 3,
            SessionState::Closed => 4,
        }
    }
}

/// Mathematical state of a session.
pub struct SessionView {
    /// Where the session stands in its life.
    pub state: SessionState,
    /// Whether the ingest duty has ended.
    pub ingest_done: bool,
    /// Whether the egress duty has ended.
    pub egress_done: bool,
    /// The cursor of the bus subscription, while the session holds one.
    pub cursor: Option<nat>,
}

impl SessionView {
    /// The state of a new session.
    pub open spec fn fresh() -> SessionView {
        SessionView {
            state: SessionState::Connecting,
            ingest_done: false,
            egress_done: false,
            cursor: None,
        }
    }

    /// What holds of the state of every session: no duty has ended before
    /// both were started, exactly one has ended while the session is closing,
    /// both have once it is closed, and the subscription is held from the
    /// upgrade until then.
    pub open spec fn valid(self) -> bool {
        match self.state {
            SessionState::Connecting => {
                !self.ingest_done && !self.egress_done && self.cursor is None
            },
            SessionState::Announcing | SessionState::Active => {
                !self.ingest_done && !self.egress_done && self.cursor is Some
            },
            SessionState::Closing => {
                self.ingest_done != self.egress_done && self.cursor is Some
            },
            SessionState::Closed => {
                self.ingest_done && self.egress_done && self.cursor is None
            },
        }
    }

    /// Whether the duties have been started.
    pub open spec fn started(self) -> bool {
        self.state == SessionState::Active || self.state == SessionState::Closing
    }

    /// Whether the ingest duty is running.
    pub open spec fn ingest_running(self) -> bool {
        self.started() && !self.ingest_done
    }

    /// Whether the egress duty is running.
    pub open spec fn egress_running(self) -> bool {
        self.started() && !self.egress_done
    }

    /// The session after the transport upgrade has succeeded on a relay in
    /// state `relay`: a connecting session subscribes to the bus and awaits
    /// its notification; any other session stays as it is.
    pub open spec fn upgraded(self, relay: RelayState) -> SessionView {
        if self.state == SessionState::Connecting {
            SessionView {
                state: SessionState::Announcing,
                cursor: Some(relay.bus.published()),
                ..self
            }
        } else {
            self
        }
    }

    /// The session after the attempt to send its notification: an announcing
    /// session becomes active; any other session stays as it is.
    pub open spec fn announced(self) -> SessionView {
        if self.state == SessionState::Announcing {
            SessionView { state: SessionState::Active, ..self }
        } else {
            self
        }
    }

    /// The session with its duties in the given state, of which at least one
    /// has ended: closing while the other duty runs, closed with the
    /// subscription released once both are over.
    pub open spec fn wound_down(self, ingest_done: bool, egress_done: bool) -> SessionView {
        if ingest_done && egress_done {
            SessionView { state: SessionState::Closed, ingest_done, egress_done, cursor: None }
        } else {
            SessionView { state: SessionState::Closing, ingest_done, egress_done, ..self }
        }
    }

    /// The session after its ingest duty has ended, if it was running.
    pub open spec fn ingest_closed(self) -> SessionView {
        if self.ingest_running() {
            self.wound_down(true, self.egress_done)
        } else {
            self
        }
    }

    /// The session after its egress duty has ended, if it was running.
    pub open spec fn egress_closed(self) -> SessionView {
        if self.egress_running() {
            self.wound_down(self.ingest_done, true)
        } else {
            self
        }
    }

    /// The relay after the session has been handed an inbound message: a
    /// running ingest duty takes it in, otherwise it is dropped.
    pub open spec fn relay_after_ingest(
        self,
        relay: RelayState,
        message: InboundView,
    ) -> RelayState {
        if self.ingest_running() {
            relay.ingest(message)
        } else {
            relay
        }
    }

    /// The relay after the ingest duty of the session has ended: the arbiter
    /// is reset if the duty was running.
    pub open spec fn relay_after_ingest_closed(self, relay: RelayState) -> RelayState {
        if self.ingest_running() {
            relay.ingest_closed()
        } else {
            relay
        }
    }

    /// What the egress duty of the session does next on a relay in state
    /// `relay`. A duty that is not running is told to stop.
    pub open spec fn egress_action(self, relay: RelayState) -> EgressActionView {
        if self.egress_running() {
            relay.egress_action(self.cursor->0)
        } else {
            EgressActionView::Stop
        }
    }

    /// The session after that step of its egress duty: only the cursor moves.
    pub open spec fn egress(self, relay: RelayState) -> SessionView {
        if self.egress_running() {
            SessionView { cursor: Some(relay.egress_cursor(self.cursor->0)), ..self }
        } else {
            self
        }
    }
}

/// One client connection from upgrade to teardown.
pub struct Session {
    state: SessionState,
    ingest_done: bool,
    egress_done: bool,
    subscription: Option<Subscription>,
}

impl View for Session {
    type V = SessionView;

    closed spec fn view(&self) -> SessionView {
        SessionView {
            state: self.state,
            ingest_done: self.ingest_done,
            egress_done: self.egress_done,
            cursor: match self.subscription {
                Some(subscription) => Some(subscription@),
                None => None,
            },
        }
    }
}

impl Session {
    #[verifier::type_invariant]
    spec fn well_formed(self) -> bool {
        self@.valid()
    }

    /// A session for a connection whose upgrade is under way.
    pub fn new() -> (session: Self)
        ensures
            session@ == SessionView::fresh(),
    {
        Session {
            state: SessionState::Connecting,
            ingest_done: false,
            egress_done: false,
            subscription: None,
        }
    }

    /// Where the session stands in its life.
    pub fn state(&self) -> (state: SessionState)
        ensures
            state == self@.state,
            self@.valid(),
    {
        proof {
            use_type_invariant(self);
        }
        self.state
    }

    /// Whether the ingest duty is running.
    pub fn ingest_running(&self) -> (running: bool)
        ensures
            running == self@.ingest_running(),
    {
        (self.state == SessionState::Active || self.state == SessionState::Closing)
            && !self.ingest_done
    }

    /// Whether the egress duty is running.
    pub fn egress_running(&self) -> (running: bool)
        ensures
            running == self@.egress_running(),
    {
        (self.state == SessionState::Active || self.state == SessionState::Closing)
            && !self.egress_done
    }

    /// The transport upgrade has succeeded. A connecting session subscribes
    /// to the bus, reads the arbiter, and returns the status to report to
    /// its client; it receives the frames published from this moment on. On
    /// any other session the call does nothing and returns `None`, so that a
    /// session yields one notification in its life.
    pub fn upgraded(&mut self, relay: &Relay) -> (status: Option<SharingStatus>)
        ensures
            final(self)@ == old(self)@.upgraded(relay@),
            status == if old(self)@.state == SessionState::Connecting {
                Some(relay@.status())
            } else {
                None
            },
    {
        proof {
            use_type_invariant(&*self);
        }
        if self.state == SessionState::Connecting {
            let subscription = relay.bus.subscribe();
            let status = relay.status();
            *self = Session {
                state: SessionState::Announcing,
                ingest_done: false,
                egress_done: false,
                subscription: Some(subscription),
            };
            Some(status)
        } else {
            None
        }
    }

    /// The attempt to send the status notification is over, and the duties
    /// start whether or not it reached the client. Returns whether the
    /// session was announcing; any other session stays as it is.
    pub fn announced(&mut self) -> (started: bool)
        ensures
            final(self)@ == old(self)@.announced(),
            started == (old(self)@.state == SessionState::Announcing),
    {
        proof {
            use_type_invariant(&*self);
        }
        if self.state == SessionState::Announcing {
            *self = Session {
                state: SessionState::Active,
                ingest_done: false,
                egress_done: false,
                subscription: self.subscription,
            };
            true
        } else {
            false
        }
    }

    /// One inbound message of the client. While the ingest duty runs, the
    /// relay takes the message in as [`Relay::ingest`] says. A message that
    /// arrives while the duty is not running is dropped. Returns whether a
    /// frame went onto the bus.
    pub fn ingest(&self, relay: &mut Relay, message: Inbound) -> (published: bool)
        ensures
            final(relay)@ == self@.relay_after_ingest(old(relay)@, message@),
            published == (self@.ingest_running() && old(relay)@.publishes(message@)),
    {
        if self.ingest_running() {
            relay.ingest(message)
        } else {
            false
        }
    }

    /// The ingest duty has ended: the read failed or the connection closed.
    /// If the duty was running, the arbiter is reset to "not sharing" and the
    /// session winds down; otherwise nothing changes. Returns whether the
    /// duty was running.
    pub fn ingest_closed(&mut self, relay: &mut Relay) -> (ended: bool)
        ensures
            ended == old(self)@.ingest_running(),
            final(self)@ == old(self)@.ingest_closed(),
            final(relay)@ == old(self)@.relay_after_ingest_closed(old(relay)@),
    {
        proof {
            use_type_invariant(&*self);
        }
        if self.ingest_running() {
            relay.ingest_closed();
            *self = self.wound_down(true, self.egress_done);
            true
        } else {
            false
        }
    }

    /// One step of the egress duty: what to do next for the client. A duty
    /// that is not running is told to stop.
    pub fn egress(&mut self, relay: &Relay) -> (action: EgressAction)
        ensures
            action@ == old(self)@.egress_action(relay@),
            final(self)@ == old(self)@.egress(relay@),
    {
        proof {
            use_type_invariant(&*self);
        }
        if !self.egress_running() {
            return EgressAction::Stop;
        }
        match self.subscription {
            Some(held) => {
                let mut subscription = held;
                let action = relay.egress(&mut subscription);
                *self = Session {
                    state: self.state,
                    ingest_done: self.ingest_done,
                    egress_done: self.egress_done,
                    subscription: Some(subscription),
                };
                action
            },
            None => EgressAction::Stop,
        }
    }

    /// The egress duty has ended: a send failed or the bus is closed. If the
    /// duty was running the session winds down; otherwise nothing changes.
    /// Returns whether the duty was running.
    pub fn egress_closed(&mut self) -> (ended: bool)
        ensures
            ended == old(self)@.egress_running(),
            final(self)@ == old(self)@.egress_closed(),
    {
        proof {
            use_type_invariant(&*self);
        }
        if self.egress_running() {
            *self = self.wound_down(self.ingest_done, true);
            true
        } else {
            false
        }
    }

    /// This session with the duties in the given state, of which at least one
    /// has ended.
    fn wound_down(&self, ingest_done: bool, egress_done: bool) -> (session: Self)
        requires
            self@.cursor is Some,
            ingest_done || egress_done,
        ensures
            session@ == self@.wound_down(ingest_done, egress_done),
    {
        if ingest_done && egress_done {
            Session { state: SessionState::Closed, ingest_done, egress_done, subscription: None }
        } else {
            Session {
                state: SessionState::Closing,
                ingest_done,
                egress_done,
                subscription: self.subscription,
            }
        }
    }
}

} // verus!
