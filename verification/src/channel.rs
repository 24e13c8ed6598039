//! The conduit between the supervisor and the consumer.

use crate::metric::{EventView, MqttEvent};
use std::collections::VecDeque;
use vstd::prelude::*;

verus! {

/// An unbounded queue of events: what is sent first is received first.
///
/// Sending never waits and never fails; once the receiving side is closed,
/// what is sent is dropped. Receiving never waits either: it returns the
/// oldest event, or nothing.
#[derive(Debug)]
pub struct EventChannel<V> {
    queue: VecDeque<MqttEvent<V>>,
    closed: bool,
}

/// A channel as the contracts see it.
pub struct ChannelView<V> {
    /// The events that wait, oldest first.
    pub queued: Seq<EventView<V>>,
    /// Whether the receiving side has gone.
    pub closed: bool,
}

impl<V> View for EventChannel<V> {
    type V = ChannelView<V>;

    closed spec fn view(&self) -> ChannelView<V> {
        ChannelView {
            queued: Seq::new(self.queue@.len(), |i: int| self.queue@[i]@),
            closed: self.closed,
        }
    }
}

impl<V> EventChannel<V> {
    /// An open channel in which nothing waits.
    pub fn new() -> (channel: Self)
        ensures
            channel@.queued == Seq::<EventView<V>>::empty(),
            !channel@.closed,
    {
        let channel = EventChannel { queue: VecDeque::new(), closed: false };
        channel
    }

    /// Puts an event behind those that wait; drops it where the channel is closed.
    pub fn send(&mut self, event: MqttEvent<V>)
        ensures
            final(self)@.closed == old(self)@.closed,
            final(self)@.queued == if old(self)@.closed {
                old(self)@.queued
            } else {
                old(self)@.queued.push(event@)
            },
    {
        if !self.closed {
            self.queue.push_back(event);
        }
    }

    /// Takes the oldest event that waits, if any.
    pub fn try_receive(&mut self) -> (event: Option<MqttEvent<V>>)
        ensures
            final(self)@.closed == old(self)@.closed,
            match event {
                Some(e) => old(self)@.queued.len() > 0 && e@ == old(self)@.queued[0]
                    && final(self)@.queued == old(self)@.queued.drop_first(),
                None => old(self)@.queued.len() == 0 && final(self)@.queued == old(self)@.queued,
            },
    {
        let event = self.queue.pop_front();
        assert(self@.queued =~= if old(self)@.queued.len() > 0 {
            old(self)@.queued.drop_first()
        } else {
            old(self)@.queued
        });
        event
    }

    /// Closes the receiving side: what waits is dropped, and so is whatever is sent from now on.
    pub fn close(&mut self)
        ensures
            final(self)@.closed,
            final(self)@.queued == Seq::<EventView<V>>::empty(),
    {
        self.closed = true;
        self.queue.clear();
    }

    /// How many events wait.
    pub fn len(&self) -> (n: usize)
        ensures
            n == self@.queued.len(),
    {
        self.queue.len()
    }

    /// Whether the receiving side has gone.
    pub fn is_closed(&self) -> (closed: bool)
        ensures
            closed == self@.closed,
    {
        self.closed
    }
}

} // verus!
