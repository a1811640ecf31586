//! The frame bus: a bounded fan-out conduit that carries opaque binary frames
//! from the publisher to every subscriber.
//!
//! Every published frame gets the next sequence number, counted from zero.
//! The bus retains the most recent `capacity` frames and evicts the oldest one
//! when a frame arrives while it is full. A subscription is a cursor: the
//! sequence number of the frame it receives next. A subscriber that has fallen
//! behind the retained window is told how many frames it missed and resumes at
//! the oldest frame still held.

use std::collections::VecDeque;
use vstd::prelude::*;

verus! {

/// Mathematical state of a frame bus.
pub struct BusState {
    /// The number of frames the bus retains at most.
    pub capacity: nat,
    /// Every frame accepted so far, in publish order. The index of a frame is
    /// its sequence number.
    pub log: Seq<Seq<u8>>,
    /// Whether the bus has been closed to further publishing.
    pub closed: bool,
}

/// Mathematical value of a [`Delivery`].
pub enum DeliveryView {
    Frame(Seq<u8>),
    Lagged(nat),
    Empty,
    Closed,
}

impl BusState {
    /// The state of a new bus: open, nothing published.
    pub open spec fn fresh(capacity: nat) -> BusState {
        BusState { capacity, log: Seq::empty(), closed: false }
    }

    /// What holds of the state of every bus.
    pub open spec fn valid(self) -> bool {
        &&& self.capacity > 0
        &&& self.log.len() <= u64::MAX
    }

    /// The number of frames accepted so far, which is also the sequence number
    /// that the next frame will get.
    pub open spec fn published(self) -> nat {
        self.log.len()
    }

    /// The sequence number of the oldest frame still retained: zero until
    /// the first frame is evicted.
    pub open spec fn oldest(self) -> nat {
        if self.log.len() > self.capacity {
            (self.log.len() - self.capacity) as nat
        } else {
            0
        }
    }

    /// The frames still retained, oldest first: the last `capacity` frames of
    /// the log, or all of it while it is shorter.
    pub open spec fn retained(self) -> Seq<Seq<u8>> {
        self.log.subrange(self.oldest() as int, self.log.len() as int)
    }

    /// Whether a frame offered now is accepted: the bus is open and has a
    /// sequence number left for it.
    pub open spec fn accepts(self) -> bool {
        !self.closed && self.log.len() < u64::MAX
    }

    /// The state after a frame is offered. An accepted frame is appended to
    /// the log; a refused frame leaves the state as it was.
    pub open spec fn publish(self, frame: Seq<u8>) -> BusState {
        if self.accepts() {
            BusState { log: self.log.push(frame), ..self }
        } else {
            self
        }
    }

    /// The state after closing: nothing else changes.
    pub open spec fn close(self) -> BusState {
        BusState { closed: true, ..self }
    }

    /// What a subscriber whose cursor stands at `next` receives.
    pub open spec fn deliver(self, next: nat) -> DeliveryView {
        if next < self.oldest() {
            DeliveryView::Lagged((self.oldest() - next) as nat)
        } else if next < self.log.len() {
            DeliveryView::Frame(self.log[next as int])
        } else if self.closed {
            DeliveryView::Closed
        } else {
            DeliveryView::Empty
        }
    }

    /// Where the cursor of that subscriber stands afterwards: at the oldest
    /// retained frame after a lag, one further after a frame, unmoved
    /// otherwise.
    pub open spec fn advance(self, next: nat) -> nat {
        if next < self.oldest() {
            self.oldest()
        } else if next < self.log.len() {
            next + 1
        } else {
            next
        }
    }
}

/// What one attempt to receive from the bus yields.
#[derive(Debug, PartialEq, Eq)]
pub enum Delivery {
    /// The next frame in publish order.
    Frame(Vec<u8>),
    /// The subscriber fell behind and this many frames were evicted before it
    /// read them. Its cursor now stands at the oldest frame still retained.
    Lagged(u64),
    /// Nothing has been published beyond the cursor.
    Empty,
    /// Nothing is left beyond the cursor and the bus is closed.
    Closed,
}

impl View for Delivery {
    type V = DeliveryView;

    open spec fn view(&self) -> DeliveryView {
        match self {
            Delivery::Frame(frame) => DeliveryView::Frame(frame@),
            Delivery::Lagged(missed) => DeliveryView::Lagged(*missed as nat),
            Delivery::Empty => DeliveryView::Empty,
            Delivery::Closed => DeliveryView::Closed,
        }
    }
}

/// A subscriber's handle: the sequence number of the frame it receives next.
#[derive(Debug, Clone, Copy, PartialEq, Eq)]
pub struct Subscription {
    next: u64,
}

impl View for Subscription {
    type V = nat;

    closed spec fn view(&self) -> nat {
        self.next as nat
    }
}

impl Subscription {
    /// The sequence number of the frame that this subscription receives next.
    pub fn position(&self) -> (next: u64)
        ensures
            next == self@,
    {
        self.next
    }
}

/// The bounded drop-oldest bus.
pub struct FrameBus {
    capacity: usize,
    /// The retained frames, oldest first.
    frames: VecDeque<Vec<u8>>,
    /// The sequence number of the first retained frame.
    oldest: u64,
    closed: bool,
    log: Ghost<Seq<Seq<u8>>>,
}

impl View for FrameBus {
    type V = BusState;

    closed spec fn view(&self) -> BusState {
        BusState { capacity: self.capacity as nat, log: self.log@, closed: self.closed }
    }
}

impl FrameBus {
    #[verifier::type_invariant]
    spec fn well_formed(self) -> bool {
        &&& self@.valid()
        &&& self.oldest == self@.oldest()
        &&& self.frames@.len() == self@.retained().len()
        &&& forall|i: int|
            0 <= i < self.frames@.len() ==> (#[trigger] self.frames@[i])@ == self@.retained()[i]
    }

    /// A new open bus that retains up to `capacity` frames.
    pub fn new(capacity: usize) -> (bus: Self)
        requires
            capacity > 0,
        ensures
            bus@ == BusState::fresh(capacity as nat),
    {
        FrameBus {
            capacity,
            frames: VecDeque::new(),
            oldest: 0,
            closed: false,
            log: Ghost(Seq::empty()),
        }
    }

    /// The number of frames the bus retains at most.
    pub fn capacity(&self) -> (capacity: usize)
        ensures
            capacity == self@.capacity,
            self@.valid(),
    {
        proof {
            use_type_invariant(self);
        }
        self.capacity
    }

    /// The number of frames accepted so far.
    pub fn published(&self) -> (count: u64)
        ensures
            count == self@.published(),
    {
        proof {
            use_type_invariant(self);
        }
        self.oldest + self.frames.len() as u64
    }

    /// The number of frames currently retained.
    pub fn retained(&self) -> (count: usize)
        ensures
            count == self@.retained().len(),
    {
        proof {
            use_type_invariant(self);
        }
        self.frames.len()
    }

    /// Whether the bus has been closed.
    pub fn is_closed(&self) -> (closed: bool)
        ensures
            closed == self@.closed,
    {
        self.closed
    }

    /// Offers a frame for delivery to every current subscriber. Never waits:
    /// when the bus is full the oldest retained frame is evicted to make room.
    /// Returns whether the frame was accepted; a closed bus, or one that has
    /// run out of sequence numbers, refuses it and stays as it was.
    pub fn publish(&mut self, frame: Vec<u8>) -> (accepted: bool)
        ensures
            accepted == old(self)@.accepts(),
            final(self)@ == old(self)@.publish(frame@),
    {
        proof {
            use_type_invariant(&*self);
        }
        let held: usize = self.frames.len();
        if self.closed || self.oldest == u64::MAX - held as u64 {
            return false;
        }
        // The queue can only be changed outside the bus, whose fields must
        // agree with one another at every moment: an empty bus stands in
        // while the frame is added.
        let mut taken = FrameBus {
            capacity: self.capacity,
            frames: VecDeque::new(),
            oldest: 0,
            closed: self.closed,
            log: Ghost(Seq::empty()),
        };
        core::mem::swap(self, &mut taken);
        let FrameBus { capacity, frames, oldest, closed, log } = taken;
        let mut frames = frames;
        let mut oldest = oldest;
        if held == capacity {
            let _ = frames.pop_front();
            oldest = oldest + 1;
        }
        let ghost grown = log@.push(frame@);
        frames.push_back(frame);
        *self = FrameBus { capacity, frames, oldest, closed, log: Ghost(grown) };
        true
    }

    /// A subscription that yields the frames published from now on.
    pub fn subscribe(&self) -> (subscription: Subscription)
        ensures
            subscription@ == self@.published(),
    {
        Subscription { next: self.published() }
    }

    /// Hands the subscriber its next delivery and moves its cursor. The bus
    /// itself is not changed: subscribers do not affect one another.
    pub fn receive(&self, subscription: &mut Subscription) -> (delivery: Delivery)
        ensures
            delivery@ == self@.deliver(old(subscription)@),
            final(subscription)@ == self@.advance(old(subscription)@),
    {
        proof {
            use_type_invariant(self);
        }
        let next: u64 = subscription.next;
        if next < self.oldest {
            let missed: u64 = self.oldest - next;
            subscription.next = self.oldest;
            return Delivery::Lagged(missed);
        }
        let offset: u64 = next - self.oldest;
        if offset < self.frames.len() as u64 {
            let frame: Vec<u8> = self.frames[offset as usize].clone();
            assert(frame@ =~= self.frames@[offset as int]@);
            subscription.next = next + 1;
            Delivery::Frame(frame)
        } else if self.closed {
            Delivery::Closed
        } else {
            Delivery::Empty
        }
    }

    /// Closes the bus: from now on every frame is refused. What is retained
    /// can still be received.
    pub fn close(&mut self)
        ensures
            final(self)@ == old(self)@.close(),
    {
        proof {
            use_type_invariant(&*self);
        }
        self.closed = true;
    }
}

} // verus!
