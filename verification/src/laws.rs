//! What holds of the relay over whole runs, proved from the contracts of the
//! single operations.
//!
//! Each law speaks of a run: a sequence of steps of any length, in any
//! order, as a host may take them on behalf of clients that come, send,
//! receive and go as they please. The outcome of a run is defined with the
//! functions by which the contracts of the operations say what they do.

use crate::frame_bus::{BusState, DeliveryView};
use crate::message::{EgressActionView, InboundView, SharingStatus};
use crate::relay::RelayState;
use crate::session::{SessionState, SessionView};
use vstd::prelude::*;

verus! {

/// One thing that happens on a bus while a subscriber listens.
pub enum BusStep {
    /// A frame is offered to the bus.
    Publish(Seq<u8>),
    /// The bus is closed.
    Close,
    /// The subscriber receives.
    Receive,
}

/// A bus together with what one subscriber has received from it.
pub struct Listening {
    /// The state of the bus.
    pub bus: BusState,
    /// The cursor of the subscription.
    pub cursor: nat,
    /// What the subscriber's receives have yielded, in order.
    pub received: Seq<DeliveryView>,
}

/// The outcome of a run of steps on a bus in state `bus`, for a subscriber
/// whose cursor stands at `cursor` when the run begins.
pub open spec fn listen(bus: BusState, cursor: nat, steps: Seq<BusStep>) -> Listening
    decreases steps.len(),
{
    if steps.len() == 0 {
        Listening { bus, cursor, received: Seq::empty() }
    } else {
        let before = listen(bus, cursor, steps.drop_last());
        match steps.last() {
            BusStep::Publish(frame) => Listening { bus: before.bus.publish(frame), ..before },
            BusStep::Close => Listening { bus: before.bus.close(), ..before },
            BusStep::Receive => Listening {
                bus: before.bus,
                cursor: before.bus.advance(before.cursor),
                received: before.received.push(before.bus.deliver(before.cursor)),
            },
        }
    }
}

/// The frames among a run of deliveries, in order.
pub open spec fn frames_in(received: Seq<DeliveryView>) -> Seq<Seq<u8>>
    decreases received.len(),
{
    if received.len() == 0 {
        Seq::empty()
    } else {
        match received.last() {
            DeliveryView::Frame(frame) => frames_in(received.drop_last()).push(frame),
            _ => frames_in(received.drop_last()),
        }
    }
}

/// The number of frames that a run of deliveries reports as missed.
pub open spec fn missed_in(received: Seq<DeliveryView>) -> nat
    decreases received.len(),
{
    if received.len() == 0 {
        0
    } else {
        match received.last() {
            DeliveryView::Lagged(missed) => missed_in(received.drop_last()) + missed,
            _ => missed_in(received.drop_last()),
        }
    }
}

/// Nothing is skipped in silence. A subscriber subscribes to a bus and then
/// frames are published, the bus may be closed, and the subscriber receives,
/// in any order. Afterwards every frame accepted since the subscription and
/// before the subscriber's cursor has either been received or been reported
/// as missed. If nothing was reported as missed, the frames received are
/// exactly that stretch of the log, in publish order.
pub proof fn lemma_received_or_reported(bus: BusState, steps: Seq<BusStep>)
    requires
        bus.valid(),
    ensures
        ({
            let start = bus.published();
            let heard = listen(bus, start, steps);
            &&& heard.bus.valid()
            &&& start <= heard.cursor <= heard.bus.published()
            &&& frames_in(heard.received).len() + missed_in(heard.received) == heard.cursor - start
            &&& missed_in(heard.received) == 0 ==> frames_in(heard.received)
                == heard.bus.log.subrange(start as int, heard.cursor as int)
        }),
    decreases steps.len(),
{
    if steps.len() > 0 {
        lemma_received_or_reported(bus, steps.drop_last());
        let start = bus.published();
        let before = listen(bus, start, steps.drop_last());
        let heard = listen(bus, start, steps);
        let log = before.bus.log;
        match steps.last() {
            BusStep::Publish(frame) => {
                if missed_in(before.received) == 0 {
                    assert(heard.bus.log.subrange(start as int, heard.cursor as int)
                        =~= log.subrange(start as int, before.cursor as int));
                }
            },
            BusStep::Close => {},
            BusStep::Receive => {
                assert(heard.received.drop_last() =~= before.received);
                if missed_in(heard.received) == 0 && before.cursor < log.len() {
                    assert(log.subrange(start as int, heard.cursor as int) =~= log.subrange(
                        start as int,
                        before.cursor as int,
                    ).push(log[before.cursor as int]));
                }
            },
        }
    }
}

/// One thing that happens on a relay. Viewers are told apart by a number.
pub enum RelayStep {
    /// The ingest duty of some session takes in a message.
    Ingest(InboundView),
    /// The ingest duty of some session ends.
    IngestClosed,
    /// The bus is closed.
    BusClosed,
    /// A viewer subscribes. A viewer that had subscribed before starts anew.
    Subscribe(nat),
    /// The egress duty of a viewer takes a step.
    Egress(nat),
}

/// What one viewer has got from a relay.
pub struct Viewer {
    /// Where the log of the bus ended when the viewer subscribed.
    pub since: nat,
    /// The cursor of the viewer's subscription.
    pub cursor: nat,
    /// The frames forwarded to the viewer so far, in the order of forwarding.
    pub forwarded: Seq<Seq<u8>>,
    /// The number of frames that the viewer has lost by falling behind.
    pub skipped: nat,
}

impl Viewer {
    /// A viewer that subscribes to a relay in state `relay`.
    pub open spec fn subscribed(relay: RelayState) -> Viewer {
        Viewer {
            since: relay.bus.published(),
            cursor: relay.bus.published(),
            forwarded: Seq::empty(),
            skipped: 0,
        }
    }

    /// The viewer after a step of its egress duty on a relay in state
    /// `relay`.
    pub open spec fn egress(self, relay: RelayState) -> Viewer {
        Viewer {
            since: self.since,
            cursor: relay.egress_cursor(self.cursor),
            forwarded: match relay.egress_action(self.cursor) {
                EgressActionView::Forward(frame) => self.forwarded.push(frame),
                _ => self.forwarded,
            },
            skipped: (self.skipped + relay.resume(self.cursor) - self.cursor) as nat,
        }
    }

    /// Whether the viewer has got what a relay in state `relay` owes it:
    /// every frame published since it subscribed and before its cursor has
    /// been forwarded to it or is counted as skipped, and as long as none was
    /// skipped, what it has been forwarded is exactly that stretch of the
    /// log, every frame once and in publish order.
    pub open spec fn served_by(self, relay: RelayState) -> bool {
        &&& self.since <= self.cursor <= relay.bus.published()
        &&& self.forwarded.len() + self.skipped == self.cursor - self.since
        &&& self.skipped == 0 ==> self.forwarded == relay.bus.log.subrange(
            self.since as int,
            self.cursor as int,
        )
    }
}

/// A relay together with its viewers.
pub struct Audience {
    /// The state of the relay.
    pub relay: RelayState,
    /// The viewers that have subscribed, by number.
    pub viewers: Map<nat, Viewer>,
}

/// The outcome of a run of steps on a relay in state `relay` that has no
/// viewers when the run begins.
pub open spec fn watch(relay: RelayState, steps: Seq<RelayStep>) -> Audience
    decreases steps.len(),
{
    if steps.len() == 0 {
        Audience { relay, viewers: Map::empty() }
    } else {
        let before = watch(relay, steps.drop_last());
        match steps.last() {
            RelayStep::Ingest(message) => Audience {
                relay: before.relay.ingest(message),
                ..before
            },
            RelayStep::IngestClosed => Audience { relay: before.relay.ingest_closed(), ..before },
            RelayStep::BusClosed => Audience {
                relay: RelayState { bus: before.relay.bus.close(), ..before.relay },
                ..before
            },
            RelayStep::Subscribe(viewer) => Audience {
                viewers: before.viewers.insert(viewer, Viewer::subscribed(before.relay)),
                ..before
            },
            RelayStep::Egress(viewer) => if before.viewers.dom().contains(viewer) {
                Audience {
                    viewers: before.viewers.insert(
                        viewer,
                        before.viewers[viewer].egress(before.relay),
                    ),
                    ..before
                }
            } else {
                before
            },
        }
    }
}

/// In-order delivery. On a relay anything happens, in any order: messages
/// are taken in, ingest duties end, the bus may be closed, any number of
/// viewers subscribe at any time, and their egress duties take steps.
/// Afterwards every viewer has got what the relay owes it, as
/// [`Viewer::served_by`] says: nothing published before it subscribed,
/// nothing twice, nothing out of order, and everything up to its cursor
/// unless it fell behind.
pub proof fn lemma_forwarded_in_publish_order(relay: RelayState, steps: Seq<RelayStep>)
    requires
        relay.valid(),
    ensures
        watch(relay, steps).relay.valid(),
        forall|viewer: nat| #[trigger]
            watch(relay, steps).viewers.dom().contains(viewer) ==> watch(
                relay,
                steps,
            ).viewers[viewer].served_by(watch(relay, steps).relay),
    decreases steps.len(),
{
    if steps.len() > 0 {
        lemma_forwarded_in_publish_order(relay, steps.drop_last());
        let before = watch(relay, steps.drop_last());
        let after = watch(relay, steps);
        let log = before.relay.bus.log;
        assert forall|viewer: nat| #[trigger]
            after.viewers.dom().contains(viewer) implies after.viewers[viewer].served_by(
            after.relay,
        ) by {
            let now = after.viewers[viewer];
            match steps.last() {
                RelayStep::Ingest(message) => {
                    assert(before.viewers.dom().contains(viewer));
                    assert(after.relay.bus.log.subrange(now.since as int, now.cursor as int)
                        =~= log.subrange(now.since as int, now.cursor as int));
                },
                RelayStep::IngestClosed => {
                    assert(before.viewers.dom().contains(viewer));
                },
                RelayStep::BusClosed => {
                    assert(before.viewers.dom().contains(viewer));
                },
                RelayStep::Subscribe(subscriber) => {
                    if viewer == subscriber {
                        assert(log.subrange(now.since as int, now.cursor as int) =~= now.forwarded);
                    } else {
                        assert(before.viewers.dom().contains(viewer));
                    }
                },
                RelayStep::Egress(mover) => {
                    assert(before.viewers.dom().contains(viewer));
                    if viewer == mover {
                        let was = before.viewers[viewer];
                        let at = before.relay.resume(was.cursor);
                        if now.skipped == 0 && at < log.len() {
                            assert(log.subrange(now.since as int, now.cursor as int)
                                =~= log.subrange(was.since as int, was.cursor as int).push(
                                log[at as int],
                            ));
                        }
                    }
                },
            }
        }
    }
}

/// Progress. A viewer whose cursor stands before the end of the log of a
/// relay is forwarded a frame by the next step of its egress duty: it is
/// never told to wait or to stop while a frame is pending.
pub proof fn lemma_pending_frame_is_forwarded(relay: RelayState, cursor: nat)
    requires
        relay.valid(),
        cursor < relay.bus.published(),
    ensures
        relay.egress_action(cursor) == EgressActionView::Forward(
            relay.bus.log[relay.resume(cursor) as int],
        ),
        cursor < relay.egress_cursor(cursor) <= relay.bus.published(),
{
}

/// The state of a bus after a run of frames has been offered to it one after
/// the other.
pub open spec fn publish_all(bus: BusState, frames: Seq<Seq<u8>>) -> BusState
    decreases frames.len(),
{
    if frames.len() == 0 {
        bus
    } else {
        publish_all(bus, frames.drop_last()).publish(frames.last())
    }
}

/// An open bus with room for a run of frames appends the run to its log.
pub proof fn lemma_publish_all_appends(bus: BusState, frames: Seq<Seq<u8>>)
    requires
        bus.valid(),
        !bus.closed,
        bus.published() + frames.len() <= u64::MAX,
    ensures
        publish_all(bus, frames) == (BusState { log: bus.log + frames, ..bus }),
    decreases frames.len(),
{
    if frames.len() == 0 {
        assert(bus.log + frames =~= bus.log);
    } else {
        lemma_publish_all_appends(bus, frames.drop_last());
        assert((bus.log + frames.drop_last()).push(frames.last()) =~= bus.log + frames);
    }
}

/// Overflow. More frames than the bus retains are published while a
/// subscriber that was up to date does not receive. Then the bus retains
/// exactly the most recent `capacity` frames. The subscriber is first told
/// how many frames it has lost, which is the number published beyond the
/// capacity, and then receives the retained frames in publish order. The
/// frames evicted are gone for good: whatever the cursor, no receive hands
/// out a frame with a sequence number below the oldest retained one.
pub proof fn lemma_overflow_evicts_oldest(bus: BusState, frames: Seq<Seq<u8>>)
    requires
        bus.valid(),
        !bus.closed,
        bus.published() + frames.len() <= u64::MAX,
        frames.len() > bus.capacity,
    ensures
        ({
            let start = bus.published();
            let full = publish_all(bus, frames);
            let lost = frames.len() - bus.capacity;
            &&& full.retained() == frames.subrange(lost, frames.len() as int)
            &&& full.oldest() == start + lost
            &&& full.deliver(start) == DeliveryView::Lagged(lost as nat)
            &&& full.advance(start) == full.oldest()
            &&& forall|i: int|
                0 <= i < bus.capacity ==> #[trigger] full.deliver((full.oldest() + i) as nat)
                    == DeliveryView::Frame(frames[lost + i])
            &&& forall|i: int|
                0 <= i < bus.capacity ==> #[trigger] full.advance((full.oldest() + i) as nat)
                    == full.oldest() + i + 1
            &&& forall|cursor: nat|
                cursor < full.oldest() ==> !(#[trigger] full.deliver(cursor) is Frame)
        }),
{
    lemma_publish_all_appends(bus, frames);
    let full = publish_all(bus, frames);
    let lost = frames.len() - bus.capacity;
    assert(full.retained() =~= frames.subrange(lost, frames.len() as int));
}

/// The state of a relay after a run of messages has been taken in one after
/// the other.
pub open spec fn ingest_all(relay: RelayState, messages: Seq<InboundView>) -> RelayState
    decreases messages.len(),
{
    if messages.len() == 0 {
        relay
    } else {
        ingest_all(relay, messages.drop_last()).ingest(messages.last())
    }
}

/// Marking is idempotent. After a run of one or more binary messages the
/// arbiter reports what it reported after the first of them: sharing.
pub proof fn lemma_marking_is_idempotent(relay: RelayState, messages: Seq<InboundView>)
    requires
        messages.len() >= 1,
        forall|i: int| 0 <= i < messages.len() ==> messages[i] is Binary,
    ensures
        ingest_all(relay, messages).sharing == relay.ingest(messages[0]).sharing,
        ingest_all(relay, messages).sharing,
    decreases messages.len(),
{
    if messages.len() > 1 {
        lemma_marking_is_idempotent(relay, messages.drop_last());
    }
}

/// What a client is sent.
pub enum Outgoing {
    /// The status notification.
    Status(SharingStatus),
    /// A frame of the shared stream.
    Frame(Seq<u8>),
}

/// One thing that happens to a session.
pub enum SessionStep {
    /// The transport upgrade has succeeded.
    Upgraded,
    /// The attempt to send the status notification is over.
    Announced,
    /// The client has sent a message.
    Inbound,
    /// The ingest duty has ended.
    IngestClosed,
    /// The egress duty takes a step.
    Egress,
    /// The egress duty has ended.
    EgressClosed,
}

/// A step of a session together with the state in which it finds the relay,
/// which other sessions may have changed in any way since the step before.
pub struct Moment {
    pub step: SessionStep,
    pub relay: RelayState,
}

/// A session together with everything its client has been sent.
pub struct Served {
    /// The state of the session.
    pub session: SessionView,
    /// What the client has been sent, in the order of sending.
    pub sent: Seq<Outgoing>,
}

/// The outcome of a run of moments in the life of a new session.
pub open spec fn serve(moments: Seq<Moment>) -> Served
    decreases moments.len(),
{
    if moments.len() == 0 {
        Served { session: SessionView::fresh(), sent: Seq::empty() }
    } else {
        let before = serve(moments.drop_last());
        let relay = moments.last().relay;
        match moments.last().step {
            SessionStep::Upgraded => Served {
                session: before.session.upgraded(relay),
                sent: if before.session.state == SessionState::Connecting {
                    before.sent.push(Outgoing::Status(relay.status()))
                } else {
                    before.sent
                },
            },
            SessionStep::Announced => Served { session: before.session.announced(), ..before },
            SessionStep::Inbound => before,
            SessionStep::IngestClosed => Served {
                session: before.session.ingest_closed(),
                ..before
            },
            SessionStep::Egress => Served {
                session: before.session.egress(relay),
                sent: match before.session.egress_action(relay) {
                    EgressActionView::Forward(frame) => before.sent.push(
                        Outgoing::Frame(frame),
                    ),
                    _ => before.sent,
                },
            },
            SessionStep::EgressClosed => Served {
                session: before.session.egress_closed(),
                ..before
            },
        }
    }
}

/// Whether the moment at `index` is the first upgrade of the run.
pub open spec fn first_upgrade(moments: Seq<Moment>, index: int) -> bool {
    &&& 0 <= index < moments.len()
    &&& moments[index].step is Upgraded
    &&& forall|earlier: int| 0 <= earlier < index ==> !(moments[earlier].step is Upgraded)
}

/// One notification, first. Whatever happens to a new session and in
/// whatever order, its client is sent nothing before the upgrade. From the
/// upgrade on, what it has been sent begins with one status notification,
/// which reports the arbiter as it stood at the upgrade, and everything after
/// it is a frame. The session never goes back to an earlier state.
pub proof fn lemma_one_notification_first(moments: Seq<Moment>)
    ensures
        ({
            let served = serve(moments);
            &&& served.session.valid()
            &&& served.session.state == SessionState::Connecting <==> served.sent.len() == 0
            &&& served.session.state == SessionState::Connecting <==> forall|i: int|
                0 <= i < moments.len() ==> !(moments[i].step is Upgraded)
            &&& forall|i: int| 1 <= i < served.sent.len() ==> served.sent[i] is Frame
            &&& forall|index: int| #[trigger]
                first_upgrade(moments, index) ==> served.sent.len() >= 1 && served.sent[0]
                    == Outgoing::Status(moments[index].relay.status())
            &&& moments.len() > 0 ==> serve(moments.drop_last()).session.state.rank()
                <= served.session.state.rank()
        }),
    decreases moments.len(),
{
    if moments.len() > 0 {
        let earlier = moments.drop_last();
        lemma_one_notification_first(earlier);
        let before = serve(earlier);
        let served = serve(moments);
        let last = moments.len() - 1;
        assert forall|i: int| 0 <= i < earlier.len() implies earlier[i] == moments[i] by {}
        assert forall|index: int| #[trigger]
            first_upgrade(moments, index) implies served.sent.len() >= 1 && served.sent[0]
            == Outgoing::Status(moments[index].relay.status()) by {
            if index < last {
                assert(first_upgrade(earlier, index));
            } else {
                assert forall|i: int| 0 <= i < earlier.len() implies !(earlier[i].step
                    is Upgraded) by {
                    assert(earlier[i] == moments[i]);
                }
            }
        }
        if before.session.state == SessionState::Connecting {
            if !(moments[last].step is Upgraded) {
                assert forall|i: int| 0 <= i < moments.len() implies !(moments[i].step
                    is Upgraded) by {
                    if i < last {
                        assert(earlier[i] == moments[i]);
                    }
                }
            }
        } else {
            let i = choose|i: int| 0 <= i < earlier.len() && earlier[i].step is Upgraded;
            assert(moments[i].step is Upgraded);
        }
    }
}

/// The end of a sharer resets the status. When the ingest duty of a session
/// ends while it runs, on a relay in any state, the arbiter reports "not
/// sharing", and a session whose upgrade comes next is told that the relay is
/// available.
pub proof fn lemma_ingest_end_resets_status(sharer: SessionView, relay: RelayState)
    requires
        sharer.ingest_running(),
    ensures
        !sharer.relay_after_ingest_closed(relay).sharing,
        sharer.relay_after_ingest_closed(relay).status() == SharingStatus::Available,
        sharer.relay_after_ingest_closed(relay).bus == relay.bus,
{
}

} // verus!
