use tracing_channels::model::{ChannelModel, ModelRecv, ModelSend};

#[test]
fn model_fifo_order() {
    let mut m = ChannelModel::<u32>::unbounded();
    assert_eq!(m.try_send(1), ModelSend::Sent);
    assert_eq!(m.try_send(2), ModelSend::Sent);
    assert_eq!(m.try_send(3), ModelSend::Sent);
    assert_eq!(m.try_recv(), ModelRecv::Received(1));
    assert_eq!(m.try_recv(), ModelRecv::Received(2));
    assert_eq!(m.try_recv(), ModelRecv::Received(3));
    assert_eq!(m.try_recv(), ModelRecv::Empty);
}

#[test]
fn model_rendezvous_pairs_with_a_waiting_receive() {
    let mut m = ChannelModel::<u32>::bounded(0);
    // Nothing can be buffered, so a send before any receive cannot complete.
    assert_eq!(m.try_send(5), ModelSend::Full(5));
    assert_eq!(m.len(), 0);
    // Once a receive has begun to wait, the send completes by hand-off.
    assert!(m.begin_wait());
    assert_eq!(m.try_send(5), ModelSend::Sent);
    assert_eq!(m.len(), 0);
}

#[test]
fn model_drains_queued_items_then_reports_closed() {
    let mut m = ChannelModel::<&str>::unbounded();
    assert_eq!(m.try_send("a"), ModelSend::Sent);
    assert_eq!(m.try_send("b"), ModelSend::Sent);
    m.drop_sender();
    assert_eq!(m.try_recv(), ModelRecv::Received("a"));
    assert_eq!(m.try_recv(), ModelRecv::Received("b"));
    assert_eq!(m.try_recv(), ModelRecv::Closed);
}

#[test]
fn model_send_fails_once_receivers_are_gone() {
    let mut m = ChannelModel::<u32>::unbounded();
    m.drop_receiver();
    assert_eq!(m.try_send(9), ModelSend::Closed(9));
    assert_eq!(m.len(), 0);
}

#[test]
fn model_cancellation_leaves_the_queue_unchanged() {
    // A send that could not complete inserted nothing.
    let mut m = ChannelModel::<u32>::bounded(1);
    assert_eq!(m.try_send(1), ModelSend::Sent);
    assert_eq!(m.try_send(2), ModelSend::Full(2));
    assert_eq!(m.len(), 1);
    // A receive that began to wait and was cancelled removed nothing.
    let mut n = ChannelModel::<u32>::unbounded();
    assert!(n.begin_wait());
    n.cancel_wait();
    assert_eq!(n.len(), 0);
    assert_eq!(n.try_recv(), ModelRecv::Empty);
}

#[test]
fn model_cloned_sender_keeps_the_channel_open() {
    let mut m = ChannelModel::<u32>::unbounded();
    m.clone_sender();
    m.drop_sender();
    assert_eq!(m.try_recv(), ModelRecv::Empty);
    m.drop_sender();
    assert_eq!(m.try_recv(), ModelRecv::Closed);
}

#[test]
fn model_waiting_is_only_possible_on_an_empty_open_channel() {
    let mut m = ChannelModel::<u32>::unbounded();
    assert_eq!(m.try_send(1), ModelSend::Sent);
    assert!(!m.begin_wait());
    assert_eq!(m.try_recv(), ModelRecv::Received(1));
    assert!(m.begin_wait());
}
