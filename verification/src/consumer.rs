//! The contract between a consumer and the code that drives it, and the
//! cursors that poll a consumer message by message.

use crate::assignment::{all_within_window, spec_seek_allowed, Assignment, VGroupId};
use crate::message::MessageSet;
use crate::timeout::Timeout;
use core::future::Future;
use vstd::future::FutureAdditionalSpecFns;
use vstd::prelude::*;

verus! {

/// Where a received message comes from: the keys under which its position is
/// committed and sought.
pub trait IsOffset {
    /// The database that owns the topic of the message.
    fn database(&self) -> &str;

    /// The topic of the message.
    fn topic(&self) -> &str;

    /// The partition of the message within its topic.
    fn vgroup_id(&self) -> VGroupId;
}

/// What the metadata of a received message can be asked for. Decoding takes
/// place when a form is asked for, not when the message is received.
pub trait IsMeta {
    /// The structured form of the metadata.
    type Json;

    /// Why a payload could not be decoded.
    type Error;

    /// Whether asking for the raw bytes can end in `raw`. A payload that
    /// declares nothing leaves every outcome open.
    open spec fn raw_meta_outcome(&self, raw: Result<Vec<u8>, Self::Error>) -> bool {
        true
    }

    /// Whether asking for the structured form can end in `json`.
    open spec fn json_meta_outcome(&self, json: Result<Self::Json, Self::Error>) -> bool {
        true
    }

    /// The metadata as raw bytes.
    fn as_raw_meta(&self) -> (raw: Result<Vec<u8>, Self::Error>)
        ensures
            self.raw_meta_outcome(raw),
    ;

    /// The metadata in structured form.
    fn as_json_meta(&self) -> (json: Result<Self::Json, Self::Error>)
        ensures
            self.json_meta_outcome(json),
    ;
}

/// What the data of a received message can be asked for.
pub trait IsData {
    /// One structured block of rows.
    type Block;

    /// Why a payload could not be decoded.
    type Error;

    /// Whether asking for the raw bytes can end in `raw`. A payload that
    /// declares nothing leaves every outcome open.
    open spec fn raw_data_outcome(&self, raw: Result<Vec<u8>, Self::Error>) -> bool {
        true
    }

    /// Whether asking for the next block can end in `block`.
    open spec fn raw_block_outcome(&self, block: Result<Option<Self::Block>, Self::Error>) -> bool {
        true
    }

    /// The data as raw bytes.
    fn as_raw_data(&self) -> (raw: Result<Vec<u8>, Self::Error>)
        ensures
            self.raw_data_outcome(raw),
    ;

    /// The next block of rows, or `None` when the message holds no more.
    fn fetch_raw_block(&self) -> (block: Result<Option<Self::Block>, Self::Error>)
        ensures
            self.raw_block_outcome(block),
    ;
}

/// Marks a driver whose operations suspend and which is driven from blocking
/// code by running each of them to completion. The driver brings the means
/// to do so: the library keeps no runtime of its own.
///
/// A driver carries one marker at most: with both, each contract would be
/// derived from the other and the two derivations would overlap.
pub trait SyncOnAsync {
    /// Runs a suspended operation to completion on the calling thread and
    /// hands out what it completed with. The call returns when the
    /// operation has completed, and not before.
    fn run_to_completion<F: Future>(operation: F) -> (output: F::Output)
        ensures
            operation.awaited(),
            output == operation@,
    ;
}

/// Marks a driver whose operations block and which is offered to suspending
/// code as operations that complete as soon as they are resumed.
pub trait AsyncOnSync {

}

/// One received message with the place it came from.
pub type Message<C> = (
    <C as AsConsumer>::Offset,
    MessageSet<<C as AsConsumer>::Meta, <C as AsConsumer>::Data>,
);

/// What one receive ends in: a message, nothing within the time allowed, or
/// the failure of the backend.
pub type Received<C> = Result<Option<Message<C>>, <C as AsConsumer>::Error>;

/// The consumer of a message queue, as blocking code drives it.
///
/// A consumer starts out unsubscribed; `subscribe` makes the other
/// operations meaningful, and `unsubscribe` gives the consumer up. Failures
/// of the backend are handed on as they are: nothing here retries.
pub trait AsConsumer: Sized {
    /// Where a message comes from.
    type Offset: IsOffset;

    /// The metadata of a message.
    type Meta: IsMeta;

    /// The data of a message.
    type Data: IsData;

    /// A failure of the backend.
    type Error;

    /// The timeout of a receive for which the caller names none: to wait
    /// without limit, unless the consumer declares another.
    open spec fn spec_default_timeout(&self) -> Timeout {
        Timeout::Never
    }

    /// Whether subscribing to `topics` can end in `subscribed` and leave
    /// the consumer as `after`. Here and below, a consumer that declares
    /// nothing leaves every outcome open.
    open spec fn subscribe_outcome(
        &self,
        topics: Seq<String>,
        after: Self,
        subscribed: Result<(), Self::Error>,
    ) -> bool {
        true
    }

    /// Whether a receive that waits `timeout` can end in `received`.
    open spec fn receive_outcome(&self, timeout: Timeout, received: Received<Self>) -> bool {
        true
    }

    /// Whether committing `offset` can end in `committed`.
    open spec fn commit_outcome(&self, offset: Self::Offset, committed: Result<(), Self::Error>)
        -> bool {
        true
    }

    /// Whether the consumer can report `reported` as its present
    /// assignments.
    open spec fn assignments_outcome(&self, reported: Option<Vec<(String, Vec<Assignment>)>>)
        -> bool {
        true
    }

    /// Whether moving the partition `vg_id` of `topic` to `offset` can end
    /// in `moved` and leave the consumer as `after`.
    open spec fn seek_outcome(
        &self,
        topic: Seq<char>,
        vg_id: VGroupId,
        offset: i64,
        after: Self,
        moved: Result<(), Self::Error>,
    ) -> bool {
        true
    }

    /// The timeout of a receive for which the caller names none.
    fn default_timeout(&self) -> (timeout: Timeout)
        ensures
            timeout == self.spec_default_timeout(),
    ;

    /// Subscribes to `topics`, in their order. Fails where the backend
    /// refuses a topic or the session is not valid.
    fn subscribe(&mut self, topics: Vec<String>) -> (subscribed: Result<(), Self::Error>)
        ensures
            old(self).subscribe_outcome(topics@, *final(self), subscribed),
    ;

    /// Waits up to `timeout` for the next message. `Ok(None)` says that none
    /// arrived in that time, which is no failure.
    fn recv_timeout(&self, timeout: Timeout) -> (received: Received<Self>)
        ensures
            self.receive_outcome(timeout, received),
    ;

    /// Waits for the next message as long as the default timeout allows.
    fn recv(&self) -> (received: Received<Self>)
        ensures
            self.receive_outcome(self.spec_default_timeout(), received),
    {
        self.recv_timeout(self.default_timeout())
    }

    /// A cursor over the messages that carry data, each receive waiting up
    /// to `timeout`.
    fn iter_data_only(&self, timeout: Timeout) -> (cursor: DataOnlyIter<'_, Self>)
        ensures
            cursor.consumer() == self,
            cursor.timeout() == timeout,
    {
        DataOnlyIter { messages: self.iter_with_timeout(timeout) }
    }

    /// A cursor over the messages, each receive waiting up to `timeout`.
    fn iter_with_timeout(&self, timeout: Timeout) -> (cursor: MessageSetsIter<'_, Self>)
        ensures
            cursor.consumer() == self,
            cursor.timeout() == timeout,
    {
        MessageSetsIter { consumer: self, timeout }
    }

    /// A cursor over the messages, each receive waiting as long as the
    /// default timeout allows.
    fn iter(&self) -> (cursor: MessageSetsIter<'_, Self>)
        ensures
            cursor.consumer() == self,
            cursor.timeout() == self.spec_default_timeout(),
    {
        self.iter_with_timeout(self.default_timeout())
    }

    /// Records that the partition of `offset` has been consumed up to it.
    /// Fails where the broker refuses the commit.
    fn commit(&self, offset: Self::Offset) -> (committed: Result<(), Self::Error>)
        ensures
            self.commit_outcome(offset, committed),
    ;

    /// Gives the consumer up.
    fn unsubscribe(self) {
    }

    /// The present assignments by topic, or `None` where the backend cannot
    /// report them, as before a subscription. Every snapshot that is
    /// reported has its offset in its window.
    fn assignments(&self) -> (reported: Option<Vec<(String, Vec<Assignment>)>>)
        ensures
            self.assignments_outcome(reported),
            reported matches Some(all) ==> all_within_window(all@),
    ;

    /// Moves the partition `vg_id` of `topic` to `offset`, from where the
    /// next receives go on. Succeeds only where the partition is assigned
    /// and its window holds the offset.
    fn offset_seek(&mut self, topic: &str, vg_id: VGroupId, offset: i64) -> (moved: Result<
        (),
        Self::Error,
    >)
        ensures
            old(self).seek_outcome(topic@, vg_id, offset, *final(self), moved),
            moved is Ok ==> exists|all: Vec<(String, Vec<Assignment>)>|
                old(self).assignments_outcome(Some(all)) && #[trigger] spec_seek_allowed(
                    all@,
                    topic@,
                    vg_id,
                    offset,
                ),
    ;
}

/// What a receive hands to the caller of a cursor: the message or the
/// failure, or nothing where no message arrived.
pub open spec fn spec_next_item<T, E>(received: Result<Option<T>, E>) -> Option<Result<T, E>> {
    match received {
        Ok(Some(message)) => Some(Ok(message)),
        Ok(None) => None,
        Err(failure) => Some(Err(failure)),
    }
}

/// What is left of an item for a caller that wants data alone: the place and
/// the data of a message that carries data, a failure as it is, and nothing
/// of a message without data.
pub open spec fn spec_data_only<O, M, D, E>(item: Result<(O, MessageSet<M, D>), E>) -> Option<
    Result<(O, D), E>,
> {
    match item {
        Ok((offset, set)) => match set.spec_data() {
            Some(data) => Some(Ok((offset, data))),
            None => None,
        },
        Err(failure) => Some(Err(failure)),
    }
}

/// What a receive hands to the caller of a data-only cursor.
pub open spec fn spec_next_data<O, M, D, E>(received: Result<Option<(O, MessageSet<M, D>)>, E>)
    -> Option<Result<(O, D), E>> {
    match spec_next_item(received) {
        Some(item) => spec_data_only(item),
        None => None,
    }
}

/// A cursor hands on what the receive ended in: a message as it came, each
/// failure as an item of its own, and nothing only where nothing arrived.
pub proof fn lemma_next_item_hands_on<T, E>(received: Result<Option<T>, E>)
    ensures
        received matches Ok(Some(message)) ==> spec_next_item(received) == Some(
            Ok::<T, E>(message),
        ),
        received matches Err(failure) ==> spec_next_item(received) == Some(Err::<T, E>(failure)),
        spec_next_item(received) is None <==> received == Ok::<Option<T>, E>(None),
{
}

/// A data-only cursor hands on the place and the data of every message that
/// carries data and each failure as an item of its own; it hands out nothing
/// exactly where nothing arrived or the message carried no data.
pub proof fn lemma_next_data_hands_on<O, M, D, E>(received: Result<Option<(O, MessageSet<M, D>)>, E>)
    ensures
        received matches Ok(Some((offset, set))) ==> (set.spec_data() matches Some(data)
            ==> spec_next_data(received) == Some(Ok::<(O, D), E>((offset, data)))),
        received matches Err(failure) ==> spec_next_data(received) == Some(
            Err::<(O, D), E>(failure),
        ),
        spec_next_data(received) is None <==> (received == Ok::<Option<(O, MessageSet<M, D>)>, E>(
            None,
        ) || (received matches Ok(Some((_, set))) && !set.spec_has_data())),
{
}

/// Turns the outcome of a receive into what a cursor hands out.
pub fn next_item<T, E>(received: Result<Option<T>, E>) -> (item: Option<Result<T, E>>)
    ensures
        item == spec_next_item(received),
{
    match received {
        Ok(Some(message)) => Some(Ok(message)),
        Ok(None) => None,
        Err(failure) => Some(Err(failure)),
    }
}

/// Keeps of an item what a caller that wants data alone is handed.
pub fn data_only<O, M, D, E>(item: Result<(O, MessageSet<M, D>), E>) -> (kept: Option<
    Result<(O, D), E>,
>)
    ensures
        kept == spec_data_only(item),
{
    match item {
        Ok((offset, set)) => match set.into_data() {
            Some(data) => Some(Ok((offset, data))),
            None => None,
        },
        Err(failure) => Some(Err(failure)),
    }
}

/// A cursor over the messages of a consumer.
///
/// Each call of `next` is one receive with the cursor's timeout. The cursor
/// has no end of its own: `None` says that nothing arrived this time, and
/// the next call polls again; a failure is handed out as an item and leaves
/// the cursor usable.
pub struct MessageSetsIter<'a, C> {
    consumer: &'a C,
    timeout: Timeout,
}

impl<'a, C> MessageSetsIter<'a, C> {
    /// The consumer that the cursor polls.
    pub closed spec fn consumer(self) -> &'a C {
        self.consumer
    }

    /// How long each receive waits.
    pub closed spec fn timeout(self) -> Timeout {
        self.timeout
    }
}

impl<'a, C: AsConsumer> MessageSetsIter<'a, C> {
    /// Receives once and hands out the message or the failure, or `None`
    /// where no message arrived.
    pub fn next(&mut self) -> (item: Option<Result<Message<C>, C::Error>>)
        ensures
            *final(self) == *old(self),
            exists|received: Received<C>|
                old(self).consumer().receive_outcome(old(self).timeout(), received) && item
                    == #[trigger] spec_next_item(received),
    {
        let received = self.consumer.recv_timeout(self.timeout);
        next_item(received)
    }
}

/// A cursor over the messages of a consumer that carry data.
///
/// It polls as [`MessageSetsIter`] does and hands out the place and the data
/// of each message that carries data. A message without data is dropped: the
/// call that received it hands out `None`, as it does when nothing arrived.
pub struct DataOnlyIter<'a, C> {
    messages: MessageSetsIter<'a, C>,
}

impl<'a, C> DataOnlyIter<'a, C> {
    /// The consumer that the cursor polls.
    pub closed spec fn consumer(self) -> &'a C {
        self.messages.consumer
    }

    /// How long each receive waits.
    pub closed spec fn timeout(self) -> Timeout {
        self.messages.timeout
    }
}

impl<'a, C: AsConsumer> DataOnlyIter<'a, C> {
    /// Receives once and hands out the place and the data of the message, or
    /// the failure, or `None` where no message with data arrived.
    pub fn next(&mut self) -> (item: Option<Result<(C::Offset, C::Data), C::Error>>)
        ensures
            *final(self) == *old(self),
            exists|received: Received<C>|
                old(self).consumer().receive_outcome(old(self).timeout(), received) && item
                    == #[trigger] spec_next_data(received),
    {
        let polled = self.messages.next();
        proof {
            let received = choose|received: Received<C>|
                self.messages.consumer().receive_outcome(self.messages.timeout(), received) && polled
                    == #[trigger] spec_next_item(received);
            assert(spec_next_data(received) == match polled {
                Some(item) => spec_data_only(item),
                None => None,
            });
        }
        match polled {
            Some(item) => data_only(item),
            None => None,
        }
    }
}

} // verus!
