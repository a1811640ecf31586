//! The relay's shared state: the one frame bus and the one sharing arbiter
//! that every session works on.

use crate::arbiter::SharingArbiter;
use crate::frame_bus::{BusState, Delivery, DeliveryView, FrameBus, Subscription};
use crate::message::{EgressAction, EgressActionView, Inbound, InboundView, SharingStatus};
use vstd::prelude::*;

verus! {

/// The number of frames a relay's bus retains unless told otherwise.
pub const DEFAULT_CAPACITY: usize = 50;

/// Mathematical state of a relay.
pub struct RelayState {
    /// The state of the frame bus.
    pub bus: BusState,
    /// What the sharing arbiter reports.
    pub sharing: bool,
}

impl RelayState {
    /// The state of a new relay: an empty open bus, nobody sharing.
    pub open spec fn fresh(capacity: nat) -> RelayState {
        RelayState { bus: BusState::fresh(capacity), sharing: false }
    }

    /// What holds of the state of every relay.
    pub open spec fn valid(self) -> bool {
        self.bus.valid()
    }

    /// What a session that connects now is told.
    pub open spec fn status(self) -> SharingStatus {
        SharingStatus::of(self.sharing)
    }

    /// Whether an inbound message ends up on the bus: it has a binary payload
    /// and the bus accepts it.
    pub open spec fn publishes(self, message: InboundView) -> bool {
        message is Binary && self.bus.accepts()
    }

    /// The state after an ingest duty has taken in one message. A binary
    /// payload marks the relay as sharing and is offered to the bus as it is;
    /// any other message changes nothing.
    pub open spec fn ingest(self, message: InboundView) -> RelayState {
        match message {
            InboundView::Binary(payload) => RelayState {
                bus: self.bus.publish(payload),
                sharing: true,
            },
            InboundView::Other => self,
        }
    }

    /// The state after an ingest duty has ended: nobody is sharing, whoever
    /// was.
    pub open spec fn ingest_closed(self) -> RelayState {
        RelayState { sharing: false, ..self }
    }

    /// Where an egress duty whose cursor stands at `next` picks up: at the
    /// oldest retained frame if it has fallen behind, else where it stands.
    pub open spec fn resume(self, next: nat) -> nat {
        if next < self.bus.oldest() {
            self.bus.oldest()
        } else {
            next
        }
    }

    /// What an egress duty whose cursor stands at `next` does: it forwards
    /// the frame at which it picks up, waits if there is none yet, and stops
    /// if there is none and the bus is closed.
    pub open spec fn egress_action(self, next: nat) -> EgressActionView {
        match self.bus.deliver(self.resume(next)) {
            DeliveryView::Frame(frame) => EgressActionView::Forward(frame),
            DeliveryView::Closed => EgressActionView::Stop,
            _ => EgressActionView::Wait,
        }
    }

    /// Where the cursor of that duty stands afterwards.
    pub open spec fn egress_cursor(self, next: nat) -> nat {
        self.bus.advance(self.resume(next))
    }
}

/// The context that a host creates once and hands to every session.
pub struct Relay {
    /// The conduit that carries the sharer's frames to the viewers.
    pub bus: FrameBus,
    /// The advisory "somebody is sharing" flag.
    pub arbiter: SharingArbiter,
}

impl View for Relay {
    type V = RelayState;

    open spec fn view(&self) -> RelayState {
        RelayState { bus: self.bus@, sharing: self.arbiter@ }
    }
}

impl Relay {
    /// A relay whose bus retains up to `capacity` frames and on which nobody
    /// is sharing yet.
    pub fn new(capacity: usize) -> (relay: Self)
        requires
            capacity > 0,
        ensures
            relay@ == RelayState::fresh(capacity as nat),
    {
        Relay { bus: FrameBus::new(capacity), arbiter: SharingArbiter::new() }
    }

    /// The status to report to a session that connects now, read from the
    /// arbiter.
    pub fn status(&self) -> (status: SharingStatus)
        ensures
            status == self@.status(),
    {
        SharingStatus::from_sharing(self.arbiter.is_sharing())
    }

    /// One step of an ingest duty. A message with a binary payload marks the
    /// relay as sharing, which changes nothing if it was marked already, and
    /// is published verbatim, whatever it holds. Any other message is
    /// ignored. Returns whether a frame went onto the bus.
    pub fn ingest(&mut self, message: Inbound) -> (published: bool)
        ensures
            final(self)@ == old(self)@.ingest(message@),
            published == old(self)@.publishes(message@),
    {
        match message {
            Inbound::Binary(payload) => {
                self.arbiter.set_sharing(true);
                self.bus.publish(payload)
            },
            Inbound::Other => false,
        }
    }

    /// The end of an ingest duty, for whatever reason: the arbiter is reset
    /// to "not sharing" unconditionally, also while another session is
    /// sharing.
    pub fn ingest_closed(&mut self)
        ensures
            final(self)@ == old(self)@.ingest_closed(),
    {
        self.arbiter.set_sharing(false);
    }

    /// One step of an egress duty. A subscriber that has fallen behind
    /// silently picks up at the oldest frame still retained; the frames it
    /// missed are lost to it.
    pub fn egress(&self, subscription: &mut Subscription) -> (action: EgressAction)
        ensures
            action@ == self@.egress_action(old(subscription)@),
            final(subscription)@ == self@.egress_cursor(old(subscription)@),
    {
        let mut delivery = self.bus.receive(subscription);
        if let Delivery::Lagged(_) = delivery {
            delivery = self.bus.receive(subscription);
        }
        match delivery {
            Delivery::Frame(frame) => EgressAction::Forward(frame),
            Delivery::Closed => EgressAction::Stop,
            _ => EgressAction::Wait,
        }
    }
}

} // verus!
