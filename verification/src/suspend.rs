//! The consumer contract for drivers whose operations suspend.
//!
//! An operation of this contract need not have run when the call returns:
//! the call hands out the suspended operation, and the result is there once
//! that has been resumed to its end. What the contract says of a result, it
//! says of what the suspended operation completes with, and it says it of
//! an operation that is resumed to its end: one that is given up before
//! need not have done anything.

use crate::assignment::{
    all_within_window, reported_for_topic, spec_reported_for_topic, spec_seek_allowed, Assignment,
    VGroupId,
};
use crate::consumer::IsOffset;
use crate::future::{later, mapped};
use crate::message::MessageSet;
use crate::timeout::Timeout;
use futures::task::FutureObj;
use vstd::future::FutureAdditionalSpecFns;
use vstd::prelude::*;

verus! {

/// What the metadata of a received message can be asked for, each answer
/// behind a suspension point.
pub trait IsAsyncMeta {
    /// The structured form of the metadata.
    type Json;

    /// Why a payload could not be decoded.
    type Error;

    /// Whether asking for the raw bytes can end in `raw`. A payload that
    /// declares nothing leaves every outcome open.
    open spec fn raw_meta_outcome(&self, raw: Result<Vec<u8>, Self::Error>) -> bool {
        true
    }

    /// Whether asking for the structured form can end in `json`.
    open spec fn json_meta_outcome(&self, json: Result<Self::Json, Self::Error>) -> bool {
        true
    }

    /// The metadata as raw bytes.
    fn as_raw_meta<'a>(&'a self) -> (operation: FutureObj<'a, Result<Vec<u8>, Self::Error>>)
        ensures
            operation.awaited() ==> self.raw_meta_outcome(operation@),
    ;

    /// The metadata in structured form.
    fn as_json_meta<'a>(&'a self) -> (operation: FutureObj<'a, Result<Self::Json, Self::Error>>)
        ensures
            operation.awaited() ==> self.json_meta_outcome(operation@),
    ;
}

/// What the data of a received message can be asked for, each answer behind
/// a suspension point.
pub trait IsAsyncData {
    /// One structured block of rows.
    type Block;

    /// Why a payload could not be decoded.
    type Error;

    /// Whether asking for the raw bytes can end in `raw`. A payload that
    /// declares nothing leaves every outcome open.
    open spec fn raw_data_outcome(&self, raw: Result<Vec<u8>, Self::Error>) -> bool {
        true
    }

    /// Whether asking for the next block can end in `block`.
    open spec fn raw_block_outcome(&self, block: Result<Option<Self::Block>, Self::Error>) -> bool {
        true
    }

    /// The data as raw bytes.
    fn as_raw_data<'a>(&'a self) -> (operation: FutureObj<'a, Result<Vec<u8>, Self::Error>>)
        ensures
            operation.awaited() ==> self.raw_data_outcome(operation@),
    ;

    /// The next block of rows, or `None` when the message holds no more.
    fn fetch_raw_block<'a>(&'a self) -> (operation: FutureObj<
        'a,
        Result<Option<Self::Block>, Self::Error>,
    >)
        ensures
            operation.awaited() ==> self.raw_block_outcome(operation@),
    ;
}

/// A received message that answers for its metadata and its data itself.
pub trait AsyncMessage {
    /// One structured block of rows.
    type Block;

    /// Why a payload could not be decoded.
    type Error;

    /// Whether the message carries metadata.
    fn has_meta(&self) -> bool;

    /// Whether the message carries data.
    fn has_data(&self) -> bool;

    /// The data as raw bytes.
    fn as_raw_data<'a>(&'a self) -> FutureObj<'a, Result<Vec<u8>, Self::Error>>;

    /// The metadata as raw bytes, where the message carries any.
    fn get_meta<'a>(&'a self) -> FutureObj<'a, Result<Option<Vec<u8>>, Self::Error>>;

    /// The next block of rows, or `None` when the message holds no more.
    fn fetch_raw_block<'a>(&'a self) -> FutureObj<'a, Result<Option<Self::Block>, Self::Error>>;
}

/// One received message with the place it came from.
pub type AsyncMessageOf<C> = (
    <C as AsAsyncConsumer>::Offset,
    MessageSet<<C as AsAsyncConsumer>::Meta, <C as AsAsyncConsumer>::Data>,
);

/// What one receive ends in: a message, nothing within the time allowed, or
/// the failure of the backend.
pub type AsyncReceived<C> = Result<Option<AsyncMessageOf<C>>, <C as AsAsyncConsumer>::Error>;

/// The consumer of a message queue, as suspending code drives it. The
/// operations and what is asked of them are those of the blocking contract;
/// each operation is a suspension point.
///
/// An operation that is given up before it has completed leaves the consumer
/// usable. Operations on one consumer are not run side by side: the caller
/// or the backend puts them in a row.
pub trait AsAsyncConsumer: Sized + Send + Sync {
    /// Where a message comes from.
    type Offset: IsOffset;

    /// The metadata of a message.
    type Meta: IsAsyncMeta;

    /// The data of a message.
    type Data: IsAsyncData;

    /// A failure of the backend.
    type Error;

    /// The timeout of a receive for which the caller names none: to wait
    /// without limit, unless the consumer declares another.
    open spec fn spec_default_timeout(&self) -> Timeout {
        Timeout::Never
    }

    /// Whether subscribing to `topics` can end in `subscribed` and leave
    /// the consumer as `after`. Here and below, a consumer that declares
    /// nothing leaves every outcome open.
    open spec fn subscribe_outcome(
        &self,
        topics: Seq<String>,
        after: Self,
        subscribed: Result<(), Self::Error>,
    ) -> bool {
        true
    }

    /// Whether a receive that waits `timeout` can end in `received`.
    open spec fn receive_outcome(&self, timeout: Timeout, received: AsyncReceived<Self>) -> bool {
        true
    }

    /// Whether committing `offset` can end in `committed`.
    open spec fn commit_outcome(&self, offset: Self::Offset, committed: Result<(), Self::Error>)
        -> bool {
        true
    }

    /// Whether the consumer can report `reported` as its present
    /// assignments.
    open spec fn assignments_outcome(&self, reported: Option<Vec<(String, Vec<Assignment>)>>)
        -> bool {
        true
    }

    /// Whether moving the partition `vgroup_id` of `topic` to `offset` can
    /// end in `moved` and leave the consumer as `after`.
    open spec fn seek_outcome(
        &self,
        topic: Seq<char>,
        vgroup_id: VGroupId,
        offset: i64,
        after: Self,
        moved: Result<(), Self::Error>,
    ) -> bool {
        true
    }

    /// The timeout of a receive for which the caller names none.
    fn default_timeout(&self) -> (timeout: Timeout)
        ensures
            timeout == self.spec_default_timeout(),
    ;

    /// Subscribes to `topics`, in their order. Fails where the backend
    /// refuses a topic or the session is not valid.
    fn subscribe<'a>(&'a mut self, topics: Vec<String>) -> (operation: FutureObj<
        'a,
        Result<(), Self::Error>,
    >)
        ensures
            operation.awaited() ==> old(self).subscribe_outcome(
                topics@,
                *final(self),
                operation@,
            ),
    ;

    /// Waits up to `timeout` for the next message. `Ok(None)` says that none
    /// arrived in that time, which is no failure.
    fn recv_timeout<'a>(&'a self, timeout: Timeout) -> (operation: FutureObj<
        'a,
        AsyncReceived<Self>,
    >)
        ensures
            operation.awaited() ==> self.receive_outcome(timeout, operation@),
    ;

    /// Records that the partition of `offset` has been consumed up to it.
    /// Fails where the broker refuses the commit.
    fn commit<'a>(&'a self, offset: Self::Offset) -> (operation: FutureObj<
        'a,
        Result<(), Self::Error>,
    >)
        ensures
            operation.awaited() ==> self.commit_outcome(offset, operation@),
    ;

    /// Gives the consumer up, once the operation is resumed.
    fn unsubscribe<'a>(self) -> FutureObj<'a, ()> where Self: 'a {
        later(self, (), give_up::<Self>)
    }

    /// The present assignments by topic, or `None` where the backend cannot
    /// report them, as before a subscription. Every snapshot that is
    /// reported has its offset in its window.
    fn assignments<'a>(&'a self) -> (operation: FutureObj<
        'a,
        Option<Vec<(String, Vec<Assignment>)>>,
    >)
        ensures
            operation.awaited() ==> self.assignments_outcome(operation@),
            operation.awaited() ==> (operation@ matches Some(all) ==> all_within_window(all@)),
    ;

    /// The assignments of `topic` alone: what a report of all assignments
    /// holds under that name, and nothing where none can be reported. The
    /// report is one that `assignments` can give, with every offset in its
    /// window.
    fn topic_assignment<'a>(&'a self, topic: &'a str) -> (operation: FutureObj<
        'a,
        Vec<Assignment>,
    >)
        ensures
            operation.awaited() ==> exists|reported: Option<Vec<(String, Vec<Assignment>)>>|
                self.assignments_outcome(reported) && (reported matches Some(all)
                    ==> all_within_window(all@)) && operation@@
                    == #[trigger] spec_reported_for_topic(reported, topic@),
    {
        mapped(self.assignments(), topic, reported_for_topic)
    }

    /// Moves the partition `vgroup_id` of `topic` to `offset`, from where
    /// the next receives go on. Succeeds only where the partition is
    /// assigned and its window holds the offset.
    fn offset_seek<'a>(&'a mut self, topic: &'a str, vgroup_id: VGroupId, offset: i64) -> (operation:
        FutureObj<'a, Result<(), Self::Error>>)
        ensures
            operation.awaited() ==> old(self).seek_outcome(
                topic@,
                vgroup_id,
                offset,
                *final(self),
                operation@,
            ),
            operation.awaited() && operation@ is Ok ==> exists|all: Vec<(String, Vec<Assignment>)>|
                old(self).assignments_outcome(Some(all)) && #[trigger] spec_seek_allowed(
                    all@,
                    topic@,
                    vgroup_id,
                    offset,
                ),
    ;
}

/// Lets go of a consumer.
fn give_up<C>(consumer: C, nothing: ()) {
}

} // verus!
