//! What crosses the boundary between a client connection and the relay: the
//! inbound messages as the relay tells them apart, the status notification
//! that opens every session, and what the egress side is told to do next.

use vstd::prelude::*;

verus! {

/// The text of the status notification sent while somebody is sharing.
pub const BUSY_NOTIFICATION: &'static str = "{\"type\":\"sharing_status\",\"status\":\"busy\"}";

/// The text of the status notification sent while nobody is sharing.
pub const AVAILABLE_NOTIFICATION: &'static str =
    "{\"type\":\"sharing_status\",\"status\":\"available\"}";

/// What a new session is told about the relay.
#[derive(Debug, Clone, Copy, PartialEq, Eq, Structural)]
pub enum SharingStatus {
    /// Somebody is sharing.
    Busy,
    /// Nobody is sharing.
    Available,
}

impl SharingStatus {
    /// The status that goes with a reading of the sharing arbiter.
    pub open spec fn of(sharing: bool) -> SharingStatus {
        if sharing {
            SharingStatus::Busy
        } else {
            SharingStatus::Available
        }
    }

    /// The text of the notification that reports this status.
    pub open spec fn text(self) -> Seq<char> {
        match self {
            SharingStatus::Busy => BUSY_NOTIFICATION@,
            SharingStatus::Available => AVAILABLE_NOTIFICATION@,
        }
    }

    /// The status that goes with a reading of the sharing arbiter: busy if it
    /// reports sharing, available if not.
    pub fn from_sharing(sharing: bool) -> (status: SharingStatus)
        ensures
            status == SharingStatus::of(sharing),
    {
        if sharing {
            SharingStatus::Busy
        } else {
            SharingStatus::Available
        }
    }

    /// The notification to send to the client, as text.
    pub fn message(self) -> (message: &'static str)
        ensures
            message@ == self.text(),
    {
        match self {
            SharingStatus::Busy => BUSY_NOTIFICATION,
            SharingStatus::Available => AVAILABLE_NOTIFICATION,
        }
    }
}

/// One inbound message of a client, as far as the relay looks at it.
#[derive(Debug, PartialEq, Eq)]
pub enum Inbound {
    /// A message with a binary payload: one frame of the shared stream.
    Binary(Vec<u8>),
    /// Any other message, text or control.
    Other,
}

/// Mathematical value of an [`Inbound`].
pub enum InboundView {
    Binary(Seq<u8>),
    Other,
}

impl View for Inbound {
    type V = InboundView;

    open spec fn view(&self) -> InboundView {
        match self {
            Inbound::Binary(payload) => InboundView::Binary(payload@),
            Inbound::Other => InboundView::Other,
        }
    }
}

/// What the egress side of a session does next.
#[derive(Debug, PartialEq, Eq)]
pub enum EgressAction {
    /// Send this frame to the client as a binary message, then ask again.
    Forward(Vec<u8>),
    /// Nothing to send: wait until something is published, then ask again.
    Wait,
    /// The egress duty is over.
    Stop,
}

/// Mathematical value of an [`EgressAction`].
pub enum EgressActionView {
    Forward(Seq<u8>),
    Wait,
    Stop,
}

impl View for EgressAction {
    type V = EgressActionView;

    open spec fn view(&self) -> EgressActionView {
        match self {
            EgressAction::Forward(frame) => EgressActionView::Forward(frame@),
            EgressAction::Wait => EgressActionView::Wait,
            EgressAction::Stop => EgressActionView::Stop,
        }
    }
}

} // verus!
