//! A trace-context-propagating message channel.
//!
//! A bounded or unbounded FIFO queue between a producer-side handle and a
//! consumer-side handle, where every enqueued item carries a string-keyed
//! carrier holding the sender's trace context at the moment of the send, so
//! that the receiver can link its own spans as causal children of the
//! sender's span across the asynchronous hand-off.

pub mod app_error;
pub mod carrier;
pub mod channel;
pub mod config;
pub mod context;
pub mod custom;
pub mod digits;
pub mod forward;
pub mod greeting;
pub mod model;
pub mod my_struct;
pub mod propagation;
pub mod retry;
pub mod thing_that_uses_my_struct;
pub mod timer;
