//! Client-side consumption of a topic- and partition-based message queue.
//!
//! A backend driver implements one consumer contract, blocking
//! ([`AsConsumer`]) or suspending ([`AsAsyncConsumer`]), and marks the
//! direction in which the other is to be derived ([`bridge`]). Around the
//! contracts stand the values that they speak of: the timeout policy of a
//! receive and its text form ([`timeout`], [`expression`]), what one message
//! carries ([`message`]), and where a consumer stands in its partitions
//! ([`assignment`]).

pub mod assignment;
pub mod bridge;
pub mod consumer;
pub mod duration;
pub mod expression;
mod future;
pub mod message;
pub mod suspend;
mod text;
pub mod timeout;

pub use assignment::{Assignment, VGroupId};
pub use consumer::{
    AsConsumer, AsyncOnSync, DataOnlyIter, IsData, IsMeta, IsOffset, MessageSetsIter, SyncOnAsync,
};
pub use duration::Duration;
pub use message::MessageSet;
pub use suspend::{AsAsyncConsumer, AsyncMessage, IsAsyncData, IsAsyncMeta};
pub use timeout::{Timeout, TimeoutError};
