use tracing_channels::channel::{
    new_bounded_channel, new_unbounded_channel, open_envelope, seal_envelope, ChannelClosed,
    RecvAttempt, SendAttempt, SendError,
};
use tracing_channels::context::{consumer_span, recv_span, TraceContext};

#[test]
fn fifo_order_on_unbounded_channel() {
    let (tx, rx) = new_unbounded_channel::<u32>();
    for i in 1..=3u32 {
        tx.send(None, i).expect("send on open channel");
    }
    for i in 1..=3u32 {
        let (payload, parent) = rx.recv().expect("queued item");
        assert_eq!(payload, i);
        assert_eq!(parent, None);
    }
}

#[test]
fn drained_then_closed_after_senders_dropped() {
    let (tx, rx) = new_unbounded_channel::<&str>();
    tx.send(None, "a").expect("send on open channel");
    tx.send(None, "b").expect("send on open channel");
    drop(tx);
    assert_eq!(rx.recv().expect("first queued item").0, "a");
    assert_eq!(rx.recv().expect("second queued item").0, "b");
    assert_eq!(rx.recv(), Err(ChannelClosed));
}

#[test]
fn send_fails_without_hanging_after_receivers_dropped() {
    let (tx, rx) = new_unbounded_channel::<u32>();
    drop(rx);
    assert_eq!(tx.send(None, 7), Err(SendError(7)));
    assert_eq!(tx.try_send(None, 9), SendAttempt::Closed(9));
}

#[test]
fn rendezvous_try_send_finds_no_waiter() {
    let (tx, rx) = new_bounded_channel::<u32>(0);
    assert_eq!(tx.try_send(None, 5), SendAttempt::Full(5));
    // The failed send inserted nothing: the queue is still empty.
    assert_eq!(rx.try_recv(), RecvAttempt::Empty);
}

#[test]
fn full_bounded_queue_hands_payload_back() {
    let (tx, rx) = new_bounded_channel::<u32>(1);
    assert_eq!(tx.try_send(None, 1), SendAttempt::Sent);
    assert_eq!(tx.try_send(None, 2), SendAttempt::Full(2));
    // Only the first item ever entered the queue.
    assert_eq!(rx.recv().expect("queued item").0, 1);
    assert_eq!(rx.try_recv(), RecvAttempt::Empty);
}

#[test]
fn context_travels_with_the_payload() {
    let cx = TraceContext::new(0xabcdef0123456789abcdef0123456789, 0x1122334455667788, true);
    let (tx, rx) = new_unbounded_channel::<&str>();
    tx.send(Some(cx), "work").expect("send on open channel");
    let (payload, parent) = rx.recv().expect("queued item");
    assert_eq!(payload, "work");
    assert_eq!(parent, Some(cx));
}

#[test]
fn invalid_context_yields_orphan() {
    let zero = TraceContext::new(0, 5, false);
    let (tx, rx) = new_unbounded_channel::<u32>();
    tx.send(Some(zero), 1).expect("send on open channel");
    let (_, parent) = rx.recv().expect("queued item");
    assert_eq!(parent, None);
}

#[test]
fn three_level_hierarchy_across_the_handoff() {
    let sender_cx = TraceContext::new(0x5eed, 0xa11ce, true);
    let (tx, rx) = new_unbounded_channel::<u32>();
    tx.send(Some(sender_cx), 41).expect("send on open channel");
    let (_, remote) = rx.recv().expect("queued item");

    // The provider hands out fresh contexts for the two new spans.
    let fresh_recv = TraceContext::new(0x5eed, 0xb0b, true);
    let fresh_consumer = TraceContext::new(0x5eed, 0xcafe, true);
    let recv = recv_span(remote.as_ref(), fresh_recv);
    let consumer = consumer_span(&recv, fresh_consumer);

    // recv's parent resolves to span A, consumer's parent to the recv span.
    assert_eq!(recv.parent.expect("propagated parent").span_id, sender_cx.span_id);
    assert_eq!(recv.parent.expect("propagated parent").trace_id, sender_cx.trace_id);
    assert_eq!(consumer.parent.expect("recv parent"), recv.context);
    assert_eq!(consumer.context.trace_id, sender_cx.trace_id);
}

#[test]
fn orphan_recv_span_is_a_root() {
    let fresh = TraceContext::new(0x77, 0x88, false);
    let node = recv_span(None, fresh);
    assert_eq!(node.parent, None);
    assert_eq!(node.context, fresh);
}

#[test]
fn cloned_handles_share_the_queue() {
    let (tx, rx) = new_unbounded_channel::<u32>();
    let tx2 = tx.clone_handle();
    tx2.send(None, 11).expect("send on open channel");
    drop(tx2);
    // One producer handle remains, so the channel is not closed.
    assert_eq!(rx.recv().expect("queued item").0, 11);
    assert_eq!(rx.try_recv(), RecvAttempt::Empty);
    drop(tx);
    assert_eq!(rx.try_recv(), RecvAttempt::Closed);
}

#[test]
fn envelope_seals_and_opens_without_a_queue() {
    let cx = TraceContext::new(3, 4, false);
    let msg = seal_envelope(Some(cx), vec![1u8, 2u8]);
    let (payload, parent) = open_envelope(msg);
    assert_eq!(payload, vec![1u8, 2u8]);
    assert_eq!(parent, Some(cx));
}

#[test]
fn rendezvous_send_completes_only_after_recv_starts() {
    let rt = tokio::runtime::Runtime::new().expect("runtime");
    rt.block_on(async {
        let (tx, rx) = new_bounded_channel::<u32>(0);

        // A send started before any receive cannot complete on a
        // zero-capacity channel.
        let send_task = tokio::task::spawn_blocking(move || tx.send(None, 1));
        tokio::time::sleep(std::time::Duration::from_millis(200)).await;
        assert!(!send_task.is_finished());

        // Once a receive starts, the send completes by direct hand-off.
        let recv_task = tokio::task::spawn_blocking(move || rx.recv());
        assert_eq!(send_task.await.expect("send task"), Ok(()));
        let received = recv_task.await.expect("recv task").expect("handed-off item");
        assert_eq!(received.0, 1);
    });
}
