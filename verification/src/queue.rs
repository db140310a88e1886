//! The bounded button-event queue between the debounce activity
//! (producer) and the aggregation activity (consumer).
//!
//! The queue is a strict FIFO with a fixed capacity of 24 events,
//! single-producer/single-consumer. Enqueue order equals dequeue order,
//! and a full queue rejects the offered event unchanged so the producer
//! suspends and retries instead of dropping it or growing memory.

use vstd::prelude::*;
use embassy_sync::blocking_mutex::raw::NoopRawMutex;
use embassy_sync::channel::Channel;
use crate::mapping::ButtonEvent;

verus! {

/// The bounded queue of the input pipeline: button events, capacity 24,
/// guarded by the no-op mutex of a single-core cooperative scheduler.
#[verifier::external_body]
pub struct EventQueue {
    inner: Channel<NoopRawMutex, ButtonEvent, 24>,
}

/// The sequence of button events the queue currently holds, front first.
pub uninterp spec fn queue_events(q: EventQueue) -> Seq<ButtonEvent>;

impl EventQueue {
    /// Relies on embassy_sync::channel::Channel::new: a freshly created
    /// channel holds no messages.
    #[verifier::external_body]
    pub fn new() -> (q: EventQueue)
        ensures
            queue_events(q) == Seq::<ButtonEvent>::empty(),
    {
        EventQueue { inner: Channel::new() }
    }

    /// Relies on embassy_sync::channel::Channel::try_send: the message is
    /// appended at the back of the FIFO when fewer than 24 messages are
    /// held, and rejected with the channel unchanged when 24 are held.
    #[verifier::external_body]
    fn try_send(&mut self, event: ButtonEvent) -> (accepted: bool)
        ensures
            accepted == (queue_events(*old(self)).len() < 24),
            accepted ==> queue_events(*final(self)) == queue_events(*old(self)).push(event),
            !accepted ==> queue_events(*final(self)) == queue_events(*old(self)),
    {
        self.inner.try_send(event).is_ok()
    }

    /// Relies on embassy_sync::channel::Channel::try_receive: the message
    /// at the front of the FIFO is removed and returned; an empty channel
    /// reports no message and stays empty.
    #[verifier::external_body]
    fn try_receive(&mut self) -> (r: Option<ButtonEvent>)
        ensures
            queue_events(*old(self)).len() == 0 ==> r is None && queue_events(*final(self))
                == queue_events(*old(self)),
            queue_events(*old(self)).len() > 0 ==> r == Some(queue_events(*old(self)).first())
                && queue_events(*final(self)) == queue_events(*old(self)).drop_first(),
    {
        self.inner.try_receive().ok()
    }

    /// Producer step of the input pipeline: offer one button event to the
    /// bounded queue.
    ///
    /// Backpressure law: the event is accepted and appended exactly when
    /// fewer than 24 events are pending; a full queue rejects it with the
    /// queue unchanged, so the producer suspends and offers the same
    /// event again rather than dropping it.
    pub fn offer_event(&mut self, pressed: bool, col: usize, row: usize) -> (accepted: bool)
        ensures
            accepted == (queue_events(*old(self)).len() < 24),
            accepted ==> queue_events(*final(self)) == queue_events(*old(self)).push(
                (pressed, (col, row)),
            ),
            !accepted ==> queue_events(*final(self)) == queue_events(*old(self)),
    {
        self.try_send((pressed, (col, row)))
    }

    /// Consumer step of the input pipeline: take the oldest pending
    /// button event, if any. Events leave the queue in exactly the order
    /// they were enqueued.
    pub fn take_event(&mut self) -> (r: Option<ButtonEvent>)
        ensures
            queue_events(*old(self)).len() == 0 ==> r is None && queue_events(*final(self))
                == queue_events(*old(self)),
            queue_events(*old(self)).len() > 0 ==> r == Some(queue_events(*old(self)).first())
                && queue_events(*final(self)) == queue_events(*old(self)).drop_first(),
    {
        self.try_receive()
    }
}

} // verus!
