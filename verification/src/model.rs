//! The queue discipline of a traced channel, as a functional model.
//!
//! The running channel's queue lives inside flume and is shared by
//! independently scheduled tasks, so its state cannot be spoken of
//! directly in contracts. This module states that discipline over an
//! explicit state value — the queued items in arrival order, the
//! capacity, the live handles on each side, and the receives that have
//! begun to wait — and proves the ordering, rendezvous, closing and
//! cancellation laws over it. Each operation is one atomic step from the
//! serialization point of the queue's internal lock.

use vstd::prelude::*;

verus! {

/// The abstract state of one channel.
pub struct ModelState<T> {
    /// Queued items, oldest first.
    pub queue: Seq<T>,
    /// Fixed capacity, or none for an unbounded queue.
    pub capacity: Option<nat>,
    /// Producer-side handles still alive.
    pub senders: nat,
    /// Consumer-side handles still alive.
    pub receivers: nat,
    /// Receives that found the queue empty and suspended.
    pub waiting: nat,
}

/// How a send step ends.
#[derive(Clone, Copy, Debug, PartialEq, Eq, Structural)]
pub enum SendVerdict {
    Sent,
    Full,
    Closed,
}

/// How a receive step ends.
#[derive(Clone, Copy, Debug, PartialEq, Eq, Structural)]
pub enum RecvVerdict {
    Received,
    Empty,
    Closed,
}

/// The outcome a model send hands back: on anything but `Sent` the
/// payload comes back to the caller.
#[derive(Debug, PartialEq)]
pub enum ModelSend<T> {
    Sent,
    Full(T),
    Closed(T),
}

/// The outcome a model receive hands back.
#[derive(Debug, PartialEq)]
pub enum ModelRecv<T> {
    Received(T),
    Empty,
    Closed,
}

/// Whether a send completes, waits for space, or fails: it fails exactly
/// when no receiver handle remains; it completes by direct hand-off to a
/// waiting receive, or through free queue space.
pub open spec fn send_verdict<T>(m: ModelState<T>) -> SendVerdict {
    if m.receivers == 0 {
        SendVerdict::Closed
    } else if m.waiting > 0 {
        SendVerdict::Sent
    } else {
        match m.capacity {
            Some(c) => if m.queue.len() < c {
                SendVerdict::Sent
            } else {
                SendVerdict::Full
            },
            None => SendVerdict::Sent,
        }
    }
}

/// The state after one send step: a hand-off consumes one waiting
/// receive, a buffered send appends to the queue, and anything else
/// leaves the state exactly as it was.
pub open spec fn send_step<T>(m: ModelState<T>, t: T) -> ModelState<T> {
    if m.receivers == 0 {
        m
    } else if m.waiting > 0 {
        ModelState { waiting: (m.waiting - 1) as nat, ..m }
    } else {
        match m.capacity {
            Some(c) => if m.queue.len() < c {
                ModelState { queue: m.queue.push(t), ..m }
            } else {
                m
            },
            None => ModelState { queue: m.queue.push(t), ..m },
        }
    }
}

/// Whether a receive yields an item, waits, or reports closure: it
/// reports closure exactly when the queue is drained and no sender handle
/// remains, so queued items are always delivered first.
pub open spec fn recv_verdict<T>(m: ModelState<T>) -> RecvVerdict {
    if m.queue.len() > 0 {
        RecvVerdict::Received
    } else if m.senders == 0 {
        RecvVerdict::Closed
    } else {
        RecvVerdict::Empty
    }
}

/// The item a receive yields: always the oldest queued one.
pub open spec fn recv_value<T>(m: ModelState<T>) -> T {
    m.queue.first()
}

/// The state after one receive step: the oldest item leaves the queue;
/// an empty queue is left exactly as it was.
pub open spec fn recv_step<T>(m: ModelState<T>) -> ModelState<T> {
    if m.queue.len() > 0 {
        ModelState { queue: m.queue.drop_first(), ..m }
    } else {
        m
    }
}

/// Whether a receive may suspend: only on an empty queue of a channel
/// that is still open on both sides.
pub open spec fn can_wait<T>(m: ModelState<T>) -> bool {
    m.queue.len() == 0 && m.senders > 0 && m.receivers > 0
}

/// A receive begins to wait.
pub open spec fn wait_step<T>(m: ModelState<T>) -> ModelState<T> {
    if can_wait(m) {
        ModelState { waiting: m.waiting + 1, ..m }
    } else {
        m
    }
}

/// A waiting receive is cancelled: it withdraws without removing
/// anything.
pub open spec fn cancel_wait_step<T>(m: ModelState<T>) -> ModelState<T> {
    if m.waiting > 0 {
        ModelState { waiting: (m.waiting - 1) as nat, ..m }
    } else {
        m
    }
}

/// A producer-side handle is dropped.
pub open spec fn drop_sender_step<T>(m: ModelState<T>) -> ModelState<T> {
    if m.senders > 0 {
        ModelState { senders: (m.senders - 1) as nat, ..m }
    } else {
        m
    }
}

/// A consumer-side handle is dropped.
pub open spec fn drop_receiver_step<T>(m: ModelState<T>) -> ModelState<T> {
    if m.receivers > 0 {
        ModelState { receivers: (m.receivers - 1) as nat, ..m }
    } else {
        m
    }
}

/// The state after sending every item of `items`, oldest first.
pub open spec fn send_all<T>(m: ModelState<T>, items: Seq<T>) -> ModelState<T>
    decreases items.len(),
{
    if items.len() == 0 {
        m
    } else {
        send_all(send_step(m, items.first()), items.drop_first())
    }
}

/// The state after `n` receive steps.
pub open spec fn drain_state<T>(m: ModelState<T>, n: nat) -> ModelState<T>
    decreases n,
{
    if n == 0 {
        m
    } else {
        drain_state(recv_step(m), (n - 1) as nat)
    }
}

/// The items `n` receive steps yield, in the order they are yielded.
pub open spec fn drain_values<T>(m: ModelState<T>, n: nat) -> Seq<T>
    decreases n,
{
    if n == 0 {
        Seq::<T>::empty()
    } else if m.queue.len() > 0 {
        seq![recv_value(m)] + drain_values(recv_step(m), (n - 1) as nat)
    } else {
        Seq::<T>::empty()
    }
}

proof fn lemma_send_all_fields<T>(m: ModelState<T>, items: Seq<T>)
    requires
        m.receivers > 0,
        m.waiting == 0,
        m.capacity is None,
    ensures
        send_all(m, items).queue == m.queue + items,
        send_all(m, items).capacity == m.capacity,
        send_all(m, items).senders == m.senders,
        send_all(m, items).receivers == m.receivers,
        send_all(m, items).waiting == 0,
    decreases items.len(),
{
    if items.len() == 0 {
        assert(m.queue + items =~= m.queue);
    } else {
        let m1 = send_step(m, items.first());
        assert(m1.queue == m.queue.push(items.first()));
        lemma_send_all_fields(m1, items.drop_first());
        assert(m.queue.push(items.first()) + items.drop_first() =~= m.queue + items);
    }
}

proof fn lemma_drain<T>(m: ModelState<T>, n: nat)
    requires
        n <= m.queue.len(),
    ensures
        drain_values(m, n) == m.queue.take(n as int),
        drain_state(m, n).queue == m.queue.skip(n as int),
        drain_state(m, n).capacity == m.capacity,
        drain_state(m, n).senders == m.senders,
        drain_state(m, n).receivers == m.receivers,
        drain_state(m, n).waiting == m.waiting,
    decreases n,
{
    if n == 0 {
        assert(m.queue.take(0) =~= Seq::<T>::empty());
        assert(m.queue.skip(0) =~= m.queue);
    } else {
        let m1 = recv_step(m);
        assert(m1.queue == m.queue.drop_first());
        lemma_drain(m1, (n - 1) as nat);
        assert(seq![recv_value(m)] + m.queue.drop_first().take(n - 1) =~= m.queue.take(n as int));
        assert(m.queue.drop_first().skip(n - 1) =~= m.queue.skip(n as int));
    }
}

/// First in, first out: on an unbounded channel that is open on both
/// sides, any sequence of sends followed by as many receives yields
/// exactly the sent payloads, in send order.
pub proof fn lemma_fifo_order<T>(m: ModelState<T>, items: Seq<T>)
    requires
        m.capacity is None,
        m.receivers > 0,
        m.waiting == 0,
        m.queue.len() == 0,
    ensures
        drain_values(send_all(m, items), items.len()) == items,
{
    lemma_send_all_fields(m, items);
    let sent = send_all(m, items);
    assert(sent.queue =~= items);
    lemma_drain(sent, items.len());
    assert(sent.queue.take(items.len() as int) =~= items);
}

/// Rendezvous: on a zero-capacity channel nothing can be buffered, so a
/// send completes only by direct hand-off to a receive that has already
/// begun to wait — the send's completion happens after the receive's
/// start.
pub proof fn lemma_rendezvous_handoff<T>(m: ModelState<T>, t: T)
    requires
        m.capacity == Some(0nat),
        send_verdict(m) == SendVerdict::Sent,
    ensures
        m.waiting > 0,
        send_step(m, t).waiting == m.waiting - 1,
        send_step(m, t).queue == m.queue,
{
}

/// Closing on the receive side: with all senders gone, every queued item
/// is still delivered, in order, and the receive after the last queued
/// item reports the channel closed.
pub proof fn lemma_drain_then_closed<T>(m: ModelState<T>)
    requires
        m.senders == 0,
    ensures
        drain_values(m, m.queue.len()) == m.queue,
        recv_verdict(drain_state(m, m.queue.len())) == RecvVerdict::Closed,
{
    lemma_drain(m, m.queue.len());
    assert(m.queue.take(m.queue.len() as int) =~= m.queue);
    assert(drain_state(m, m.queue.len()).queue =~= Seq::<T>::empty());
}

/// Closing on the send side: with all receivers gone a send fails at
/// once with the closed condition, without waiting and without touching
/// the queue.
pub proof fn lemma_send_after_receivers_gone<T>(m: ModelState<T>, t: T)
    requires
        m.receivers == 0,
    ensures
        send_verdict(m) == SendVerdict::Closed,
        send_step(m, t) == m,
{
}

/// Cancellation safety: a send that did not complete has inserted
/// nothing; a receive that began to wait and was cancelled has removed
/// nothing; a receive that found the queue empty has removed nothing.
pub proof fn lemma_cancel_safety<T>(m: ModelState<T>, t: T)
    ensures
        send_verdict(m) != SendVerdict::Sent ==> send_step(m, t) == m,
        cancel_wait_step(wait_step(m)).queue == m.queue,
        recv_verdict(m) == RecvVerdict::Empty ==> recv_step(m) == m,
{
}

/// An executable form of the model, for driving the discipline through
/// concrete scenarios.
pub struct ChannelModel<T> {
    queue: Vec<T>,
    capacity: Option<usize>,
    senders: usize,
    receivers: usize,
    waiting: usize,
}

impl<T> View for ChannelModel<T> {
    type V = ModelState<T>;

    closed spec fn view(&self) -> ModelState<T> {
        ModelState {
            queue: self.queue@,
            capacity: match self.capacity {
                Some(c) => Some(c as nat),
                None => None,
            },
            senders: self.senders as nat,
            receivers: self.receivers as nat,
            waiting: self.waiting as nat,
        }
    }
}

impl<T> ChannelModel<T> {
    /// A fresh bounded channel: empty, one handle on each side.
    pub fn bounded(cap: usize) -> (r: ChannelModel<T>)
        ensures
            r@ == (ModelState::<T> {
                queue: Seq::empty(),
                capacity: Some(cap as nat),
                senders: 1,
                receivers: 1,
                waiting: 0,
            }),
    {
        ChannelModel {
            queue: Vec::new(),
            capacity: Some(cap),
            senders: 1,
            receivers: 1,
            waiting: 0,
        }
    }

    /// A fresh unbounded channel: empty, one handle on each side.
    pub fn unbounded() -> (r: ChannelModel<T>)
        ensures
            r@ == (ModelState::<T> {
                queue: Seq::empty(),
                capacity: None,
                senders: 1,
                receivers: 1,
                waiting: 0,
            }),
    {
        ChannelModel { queue: Vec::new(), capacity: None, senders: 1, receivers: 1, waiting: 0 }
    }

    /// One send step.
    pub fn try_send(&mut self, t: T) -> (r: ModelSend<T>)
        ensures
            final(self)@ == send_step(old(self)@, t),
            match r {
                ModelSend::Sent => send_verdict(old(self)@) == SendVerdict::Sent,
                ModelSend::Full(x) => x == t && send_verdict(old(self)@) == SendVerdict::Full,
                ModelSend::Closed(x) => x == t && send_verdict(old(self)@) == SendVerdict::Closed,
            },
    {
        if self.receivers == 0 {
            ModelSend::Closed(t)
        } else if self.waiting > 0 {
            self.waiting = self.waiting - 1;
            ModelSend::Sent
        } else {
            match self.capacity {
                Some(c) => {
                    if self.queue.len() < c {
                        self.queue.push(t);
                        ModelSend::Sent
                    } else {
                        ModelSend::Full(t)
                    }
                },
                None => {
                    self.queue.push(t);
                    ModelSend::Sent
                },
            }
        }
    }

    /// One receive step.
    pub fn try_recv(&mut self) -> (r: ModelRecv<T>)
        ensures
            final(self)@ == recv_step(old(self)@),
            match r {
                ModelRecv::Received(t) => recv_verdict(old(self)@) == RecvVerdict::Received && t
                    == recv_value(old(self)@),
                ModelRecv::Empty => recv_verdict(old(self)@) == RecvVerdict::Empty,
                ModelRecv::Closed => recv_verdict(old(self)@) == RecvVerdict::Closed,
            },
    {
        if self.queue.len() > 0 {
            let t = self.queue.remove(0);
            proof {
                assert(old(self).queue@.remove(0) =~= old(self).queue@.drop_first());
            }
            ModelRecv::Received(t)
        } else if self.senders == 0 {
            ModelRecv::Closed
        } else {
            ModelRecv::Empty
        }
    }

    /// A receive that found nothing begins to wait.
    pub fn begin_wait(&mut self) -> (r: bool)
        requires
            old(self)@.waiting < usize::MAX,
        ensures
            final(self)@ == wait_step(old(self)@),
            r == can_wait(old(self)@),
    {
        if self.queue.len() == 0 && self.senders > 0 && self.receivers > 0 {
            self.waiting = self.waiting + 1;
            true
        } else {
            false
        }
    }

    /// A waiting receive is cancelled.
    pub fn cancel_wait(&mut self)
        ensures
            final(self)@ == cancel_wait_step(old(self)@),
    {
        if self.waiting > 0 {
            self.waiting = self.waiting - 1;
        }
    }

    /// One more producer-side handle.
    pub fn clone_sender(&mut self)
        requires
            old(self)@.senders < usize::MAX,
        ensures
            final(self)@ == (ModelState { senders: old(self)@.senders + 1, ..old(self)@ }),
    {
        self.senders = self.senders + 1;
    }

    /// One more consumer-side handle.
    pub fn clone_receiver(&mut self)
        requires
            old(self)@.receivers < usize::MAX,
        ensures
            final(self)@ == (ModelState { receivers: old(self)@.receivers + 1, ..old(self)@ }),
    {
        self.receivers = self.receivers + 1;
    }

    /// A producer-side handle is dropped.
    pub fn drop_sender(&mut self)
        ensures
            final(self)@ == drop_sender_step(old(self)@),
    {
        if self.senders > 0 {
            self.senders = self.senders - 1;
        }
    }

    /// A consumer-side handle is dropped.
    pub fn drop_receiver(&mut self)
        ensures
            final(self)@ == drop_receiver_step(old(self)@),
    {
        if self.receivers > 0 {
            self.receivers = self.receivers - 1;
        }
    }

    /// How many items sit in the queue.
    pub fn len(&self) -> (r: usize)
        ensures
            r == self@.queue.len(),
    {
        self.queue.len()
    }
}

} // verus!
