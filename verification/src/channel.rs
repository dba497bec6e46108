//! The traced channel: a FIFO queue between a producer-side handle and a
//! consumer-side handle, where every enqueued item carries the sender's
//! trace context, captured at the moment of the send.
//!
//! The queue itself is flume's: a thread-safe channel whose two handles
//! share one internal buffer, with closure driven purely by handle
//! lifetime. What this module verifies is everything around the queue:
//! how an envelope is sealed from the sender's context, and how the
//! receiver recovers that context from a delivered envelope.

use vstd::prelude::*;

use crate::carrier::ChannelMetadata;
use crate::context::TraceContext;
use crate::propagation::{
    extract, extracted_context, inject, lemma_traceparent_round_trip, traceparent_key,
    traceparent_of, well_formed_traceparent,
};
use crate::digits::{lemma_hex_value_bound, lemma_pow16_32, pow16};

verus! {

/// One queued item: a payload of the user's type and the carrier sealed
/// from the sender's ambient context when `send` was invoked. The carrier
/// is written exactly once, at send time, and only read afterwards.
pub struct ChannelMsg<T> {
    pub metadata: ChannelMetadata,
    pub data: T,
}

/// The condition a send or a receive fails with once the other side's
/// handles are all gone. Recoverable: the caller stops producing or
/// consuming; it is never a panic.
#[derive(Clone, Copy, Debug, PartialEq, Eq, Structural)]
pub struct ChannelClosed;

/// The closed condition of a waiting send: all receiver handles are gone
/// and the undelivered payload comes back to the caller.
#[derive(Debug, PartialEq)]
pub struct SendError<T>(pub T);

/// The outcome of a non-suspending send: on anything but `Sent` the
/// payload comes back to the caller and the queue is untouched.
#[derive(Debug, PartialEq)]
pub enum SendAttempt<T> {
    Sent,
    Full(T),
    Closed(T),
}

/// The outcome of a non-suspending receive.
#[derive(Debug, PartialEq)]
pub enum RecvAttempt<T> {
    Received(T, Option<TraceContext>),
    Empty,
    Closed,
}

/// The carrier contents sealed for a given sender context: the serialized
/// context under the propagation key, or nothing when there was no valid
/// context to capture.
pub open spec fn sealed_carrier(cx: Option<TraceContext>) -> Map<Seq<char>, Seq<char>> {
    match cx {
        Some(c) => if c.is_valid() {
            Map::<Seq<char>, Seq<char>>::empty().insert(traceparent_key(), traceparent_of(c))
        } else {
            Map::<Seq<char>, Seq<char>>::empty()
        },
        None => Map::<Seq<char>, Seq<char>>::empty(),
    }
}

/// Build the envelope for one send: capture the caller's context into a
/// fresh carrier and pair it with the payload.
pub fn seal_envelope<T>(cx: Option<TraceContext>, data: T) -> (r: ChannelMsg<T>)
    ensures
        r.metadata@ == sealed_carrier(cx),
        r.data == data,
{
    let mut metadata = ChannelMetadata::new();
    match cx {
        Some(c) => inject(&c, &mut metadata),
        None => (),
    }
    ChannelMsg { metadata, data }
}

/// Take a delivered envelope apart: the payload, and the sender's context
/// if the carrier yields a usable one.
pub fn open_envelope<T>(msg: ChannelMsg<T>) -> (r: (T, Option<TraceContext>))
    ensures
        r.0 == msg.data,
        r.1 == extracted_context(msg.metadata@),
{
    let cx = extract(&msg.metadata);
    (msg.data, cx)
}

/// Whatever carrier an envelope holds, extraction only ever yields a
/// context that is usable as a parent.
pub proof fn lemma_extracted_valid(m: Map<Seq<char>, Seq<char>>)
    ensures
        match extracted_context(m) {
            Some(c) => c.is_valid(),
            None => true,
        },
{
    if m.contains_key(traceparent_key()) {
        let s = m[traceparent_key()];
        if well_formed_traceparent(s) {
            lemma_hex_value_bound(s.subrange(3, 35));
            lemma_hex_value_bound(s.subrange(36, 52));
            lemma_pow16_32();
            reveal_with_fuel(pow16, 17);
        }
    }
}

/// Round trip across the hand-off: an envelope sealed under a valid
/// context opens to the same payload and the same context; sealed under
/// no context, or an invalid one, it opens to the payload and no context.
pub proof fn lemma_seal_open(cx: Option<TraceContext>)
    ensures
        match cx {
            Some(c) => extracted_context(sealed_carrier(cx)) == if c.is_valid() {
                Some(c)
            } else {
                None::<TraceContext>
            },
            None => extracted_context(sealed_carrier(cx)) == None::<TraceContext>,
        },
{
    match cx {
        Some(c) => {
            if c.is_valid() {
                lemma_traceparent_round_trip(c);
            }
        },
        None => (),
    }
}

/// Causal linkage across the hand-off: a sender under span `a` seals an
/// envelope; the receiver recovers exactly `a`, the receive span is
/// parented to `a` and stays in `a`'s trace, and the consumer span is
/// parented to the receive span — the hierarchy `a -> recv -> consumer`.
/// `f1` and `f2` are the contexts the tracing provider generated for the
/// two new spans.
pub proof fn lemma_causal_linkage(a: TraceContext, f1: TraceContext, f2: TraceContext)
    requires
        a.is_valid(),
    ensures
        ({
            let remote = extracted_context(sealed_carrier(Some(a)));
            let recv = crate::context::recv_span_spec(remote, f1);
            let consumer = crate::context::consumer_span_spec(recv, f2);
            &&& remote == Some(a)
            &&& recv.parent == Some(a)
            &&& recv.context.trace_id == a.trace_id
            &&& recv.context.span_id == f1.span_id
            &&& consumer.parent == Some(recv.context)
            &&& consumer.context.trace_id == a.trace_id
            &&& consumer.context.span_id == f2.span_id
        }),
{
    lemma_seal_open(Some(a));
}

#[verifier::external_type_specification]
#[verifier::external_body]
#[verifier::reject_recursive_types(T)]
pub struct ExFlumeSender<T>(flume::Sender<T>);

#[verifier::external_type_specification]
#[verifier::external_body]
#[verifier::reject_recursive_types(T)]
pub struct ExFlumeReceiver<T>(flume::Receiver<T>);

/// Relies on flume::bounded: a fresh channel of the given capacity, its
/// two handles connected to one queue; capacity zero is a rendezvous
/// channel.
#[verifier::external_body]
fn flume_bounded<T>(cap: usize) -> (flume::Sender<T>, flume::Receiver<T>) {
    flume::bounded(cap)
}

/// Relies on flume::unbounded: a fresh channel whose sends never wait for
/// space.
#[verifier::external_body]
fn flume_unbounded<T>() -> (flume::Sender<T>, flume::Receiver<T>) {
    flume::unbounded()
}

/// Relies on flume::Sender::send: waits while a bounded queue is full, and
/// fails exactly when all receivers are gone, handing the message back.
#[verifier::external_body]
fn flume_send<T>(tx: &flume::Sender<T>, msg: T) -> (r: Result<(), T>)
    ensures
        match r {
            Ok(u) => true,
            Err(t) => t == msg,
        },
{
    tx.send(msg).map_err(|e| e.0)
}

/// Relies on flume::Sender::try_send: never waits; reports a full queue or
/// a closed channel, handing the message back either way.
#[verifier::external_body]
fn flume_try_send<T>(tx: &flume::Sender<T>, msg: T) -> (r: SendAttempt<T>)
    ensures
        match r {
            SendAttempt::Sent => true,
            SendAttempt::Full(t) => t == msg,
            SendAttempt::Closed(t) => t == msg,
        },
{
    match tx.try_send(msg) {
        Ok(()) => SendAttempt::Sent,
        Err(flume::TrySendError::Full(t)) => SendAttempt::Full(t),
        Err(flume::TrySendError::Disconnected(t)) => SendAttempt::Closed(t),
    }
}

/// Relies on flume::Receiver::recv: waits while the queue is empty and
/// senders remain; yields nothing exactly when the queue is drained and
/// all senders are gone.
#[verifier::external_body]
fn flume_recv<T>(rx: &flume::Receiver<T>) -> (r: Option<T>) {
    rx.recv().ok()
}

/// What one non-suspending poll of the queue found.
enum QueuePoll<T> {
    Item(T),
    NothingYet,
    Drained,
}

/// Relies on flume::Receiver::try_recv: never waits; tells a merely empty
/// queue apart from a drained and closed one.
#[verifier::external_body]
fn flume_try_recv<T>(rx: &flume::Receiver<T>) -> (r: QueuePoll<T>) {
    match rx.try_recv() {
        Ok(t) => QueuePoll::Item(t),
        Err(flume::TryRecvError::Empty) => QueuePoll::NothingYet,
        Err(flume::TryRecvError::Disconnected) => QueuePoll::Drained,
    }
}

/// Relies on flume::Sender::clone: one more producer handle onto the same
/// queue.
#[verifier::external_body]
fn flume_clone_sender<T>(tx: &flume::Sender<T>) -> flume::Sender<T> {
    tx.clone()
}

/// Relies on flume::Receiver::clone: one more consumer handle onto the
/// same queue.
#[verifier::external_body]
fn flume_clone_receiver<T>(rx: &flume::Receiver<T>) -> flume::Receiver<T> {
    rx.clone()
}

/// The producer-side handle of a traced channel.
#[verifier::reject_recursive_types(T)]
pub struct TracedSender<T> {
    tx: flume::Sender<ChannelMsg<T>>,
}

/// The consumer-side handle of a traced channel.
#[verifier::reject_recursive_types(T)]
pub struct TracedReceiver<T> {
    rx: flume::Receiver<ChannelMsg<T>>,
}

/// A traced channel of fixed capacity; capacity zero makes a rendezvous
/// channel, where a send completes only once a receive has taken the
/// value.
pub fn new_bounded_channel<T>(cap: usize) -> (TracedSender<T>, TracedReceiver<T>) {
    let (tx, rx) = flume_bounded::<ChannelMsg<T>>(cap);
    (TracedSender { tx }, TracedReceiver { rx })
}

/// A traced channel of unbounded capacity; a send never waits for space.
pub fn new_unbounded_channel<T>() -> (TracedSender<T>, TracedReceiver<T>) {
    let (tx, rx) = flume_unbounded::<ChannelMsg<T>>();
    (TracedSender { tx }, TracedReceiver { rx })
}

impl<T> TracedSender<T> {
    /// Seal the payload with the caller's context and enqueue the
    /// envelope, waiting while a bounded queue is full. Fails exactly when
    /// no receiver handle remains, handing the payload back untouched;
    /// queue fullness is not an error, only a wait.
    pub fn send(&self, cx: Option<TraceContext>, data: T) -> (r: Result<(), SendError<T>>)
        ensures
            r matches Err(e) ==> e.0 == data,
    {
        let msg = seal_envelope(cx, data);
        match flume_send(&self.tx, msg) {
            Ok(u) => Ok(()),
            Err(m) => Err(SendError(m.data)),
        }
    }

    /// Like `send`, but never waits: a full queue hands the payload back
    /// untouched, and so does a closed channel.
    pub fn try_send(&self, cx: Option<TraceContext>, data: T) -> (r: SendAttempt<T>)
        ensures
            match r {
                SendAttempt::Sent => true,
                SendAttempt::Full(t) => t == data,
                SendAttempt::Closed(t) => t == data,
            },
    {
        let msg = seal_envelope(cx, data);
        match flume_try_send(&self.tx, msg) {
            SendAttempt::Sent => SendAttempt::Sent,
            SendAttempt::Full(m) => SendAttempt::Full(m.data),
            SendAttempt::Closed(m) => SendAttempt::Closed(m.data),
        }
    }

    /// One more producer handle onto the same queue.
    pub fn clone_handle(&self) -> TracedSender<T> {
        TracedSender { tx: flume_clone_sender(&self.tx) }
    }
}

impl<T> TracedReceiver<T> {
    /// Wait for the next envelope and take it apart: the payload, and the
    /// sender's context when the carrier yields a usable one — otherwise
    /// no context, and the caller proceeds with an orphaned root span;
    /// a damaged carrier is degraded observability, not a failure. Fails
    /// exactly when the queue is drained and no sender handle remains.
    pub fn recv(&self) -> (r: Result<(T, Option<TraceContext>), ChannelClosed>)
        ensures
            match r {
                Ok((t, cx)) => match cx {
                    Some(c) => c.is_valid(),
                    None => true,
                },
                Err(e) => true,
            },
    {
        match flume_recv(&self.rx) {
            Some(msg) => {
                proof {
                    lemma_extracted_valid(msg.metadata@);
                }
                Ok(open_envelope(msg))
            },
            None => Err(ChannelClosed),
        }
    }

    /// Like `recv`, but never waits: tells a merely empty queue apart from
    /// a drained and closed one.
    pub fn try_recv(&self) -> (r: RecvAttempt<T>)
        ensures
            match r {
                RecvAttempt::Received(t, cx) => match cx {
                    Some(c) => c.is_valid(),
                    None => true,
                },
                RecvAttempt::Empty => true,
                RecvAttempt::Closed => true,
            },
    {
        match flume_try_recv(&self.rx) {
            QueuePoll::Item(msg) => {
                proof {
                    lemma_extracted_valid(msg.metadata@);
                }
                let (data, cx) = open_envelope(msg);
                RecvAttempt::Received(data, cx)
            },
            QueuePoll::NothingYet => RecvAttempt::Empty,
            QueuePoll::Drained => RecvAttempt::Closed,
        }
    }

    /// One more consumer handle onto the same queue; each envelope is
    /// still delivered to exactly one receiver.
    pub fn clone_handle(&self) -> TracedReceiver<T> {
        TracedReceiver { rx: flume_clone_receiver(&self.rx) }
    }
}

} // verus!
