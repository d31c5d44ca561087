//! One driver, both ways of calling it.
//!
//! A driver is written against the contract that suits its transport and
//! carries the marker of the direction it opts into; the other contract is
//! derived here. The derived operation hands on what the operation
//! underneath ends in, success or failure, as it is: only the way of calling
//! changes.

use crate::assignment::{all_within_window, spec_seek_allowed, Assignment, VGroupId};
use crate::consumer::{AsConsumer, AsyncOnSync, IsData, IsMeta, Received, SyncOnAsync};
use crate::future::later;
use crate::suspend::{AsAsyncConsumer, AsyncReceived, IsAsyncData, IsAsyncMeta};
use crate::timeout::Timeout;
use futures::task::FutureObj;
use vstd::future::FutureAdditionalSpecFns;
use vstd::prelude::*;

verus! {

/// Metadata that answers behind suspension points answers blocking code by
/// running each answer to completion.
impl<T> IsMeta for T where T: IsAsyncMeta + SyncOnAsync {
    type Json = <T as IsAsyncMeta>::Json;

    type Error = <T as IsAsyncMeta>::Error;

    open spec fn raw_meta_outcome(&self, raw: Result<Vec<u8>, Self::Error>) -> bool {
        <T as IsAsyncMeta>::raw_meta_outcome(self, raw)
    }

    open spec fn json_meta_outcome(&self, json: Result<Self::Json, Self::Error>) -> bool {
        <T as IsAsyncMeta>::json_meta_outcome(self, json)
    }

    fn as_raw_meta(&self) -> (raw: Result<Vec<u8>, Self::Error>) {
        <T as SyncOnAsync>::run_to_completion(<T as IsAsyncMeta>::as_raw_meta(self))
    }

    fn as_json_meta(&self) -> (json: Result<Self::Json, Self::Error>) {
        <T as SyncOnAsync>::run_to_completion(<T as IsAsyncMeta>::as_json_meta(self))
    }
}

/// Data that answers behind suspension points answers blocking code by
/// running each answer to completion.
impl<T> IsData for T where T: IsAsyncData + SyncOnAsync {
    type Block = <T as IsAsyncData>::Block;

    type Error = <T as IsAsyncData>::Error;

    open spec fn raw_data_outcome(&self, raw: Result<Vec<u8>, Self::Error>) -> bool {
        <T as IsAsyncData>::raw_data_outcome(self, raw)
    }

    open spec fn raw_block_outcome(&self, block: Result<Option<Self::Block>, Self::Error>) -> bool {
        <T as IsAsyncData>::raw_block_outcome(self, block)
    }

    fn as_raw_data(&self) -> (raw: Result<Vec<u8>, Self::Error>) {
        <T as SyncOnAsync>::run_to_completion(<T as IsAsyncData>::as_raw_data(self))
    }

    fn fetch_raw_block(&self) -> (block: Result<Option<Self::Block>, Self::Error>) {
        <T as SyncOnAsync>::run_to_completion(<T as IsAsyncData>::fetch_raw_block(self))
    }
}

/// A consumer whose operations suspend is driven from blocking code by
/// running each operation to completion on the calling thread.
impl<C> AsConsumer for C where
    C: AsAsyncConsumer + SyncOnAsync,
    C::Meta: IsMeta,
    C::Data: IsData,
 {
    type Offset = <C as AsAsyncConsumer>::Offset;

    type Meta = <C as AsAsyncConsumer>::Meta;

    type Data = <C as AsAsyncConsumer>::Data;

    type Error = <C as AsAsyncConsumer>::Error;

    open spec fn spec_default_timeout(&self) -> Timeout {
        <C as AsAsyncConsumer>::spec_default_timeout(self)
    }

    open spec fn subscribe_outcome(
        &self,
        topics: Seq<String>,
        after: Self,
        subscribed: Result<(), Self::Error>,
    ) -> bool {
        <C as AsAsyncConsumer>::subscribe_outcome(self, topics, after, subscribed)
    }

    open spec fn receive_outcome(&self, timeout: Timeout, received: Received<Self>) -> bool {
        <C as AsAsyncConsumer>::receive_outcome(self, timeout, received)
    }

    open spec fn commit_outcome(&self, offset: Self::Offset, committed: Result<(), Self::Error>)
        -> bool {
        <C as AsAsyncConsumer>::commit_outcome(self, offset, committed)
    }

    open spec fn assignments_outcome(&self, reported: Option<Vec<(String, Vec<Assignment>)>>)
        -> bool {
        <C as AsAsyncConsumer>::assignments_outcome(self, reported)
    }

    open spec fn seek_outcome(
        &self,
        topic: Seq<char>,
        vg_id: VGroupId,
        offset: i64,
        after: Self,
        moved: Result<(), Self::Error>,
    ) -> bool {
        <C as AsAsyncConsumer>::seek_outcome(self, topic, vg_id, offset, after, moved)
    }

    fn default_timeout(&self) -> (timeout: Timeout) {
        <C as AsAsyncConsumer>::default_timeout(self)
    }

    fn subscribe(&mut self, topics: Vec<String>) -> (subscribed: Result<(), Self::Error>) {
        <C as SyncOnAsync>::run_to_completion(<C as AsAsyncConsumer>::subscribe(self, topics))
    }

    fn recv_timeout(&self, timeout: Timeout) -> (received: Received<Self>) {
        <C as SyncOnAsync>::run_to_completion(<C as AsAsyncConsumer>::recv_timeout(self, timeout))
    }

    fn commit(&self, offset: Self::Offset) -> (committed: Result<(), Self::Error>) {
        <C as SyncOnAsync>::run_to_completion(<C as AsAsyncConsumer>::commit(self, offset))
    }

    fn assignments(&self) -> (reported: Option<Vec<(String, Vec<Assignment>)>>) {
        <C as SyncOnAsync>::run_to_completion(<C as AsAsyncConsumer>::assignments(self))
    }

    fn offset_seek(&mut self, topic: &str, vg_id: VGroupId, offset: i64) -> (moved: Result<
        (),
        Self::Error,
    >) {
        <C as SyncOnAsync>::run_to_completion(<C as AsAsyncConsumer>::offset_seek(self, topic, vg_id, offset))
    }
}

/// Driving a suspending consumer from blocking code changes no outcome: an
/// operation of the derived blocking contract can end in exactly what the
/// suspended operation can complete with, on the same arguments, and can
/// leave the consumer exactly as the suspended operation can leave it; the
/// default timeout is the same.
pub proof fn lemma_blocking_bridge_is_transparent<C>(consumer: C) where
    C: AsAsyncConsumer + SyncOnAsync,
    C::Meta: IsMeta,
    C::Data: IsData,

    ensures
        <C as AsConsumer>::spec_default_timeout(&consumer)
            == <C as AsAsyncConsumer>::spec_default_timeout(&consumer),
        forall|topics: Seq<String>, after: C, subscribed: Result<(), <C as AsAsyncConsumer>::Error>|
            #[trigger] <C as AsConsumer>::subscribe_outcome(&consumer, topics, after, subscribed)
                == <C as AsAsyncConsumer>::subscribe_outcome(&consumer, topics, after, subscribed),
        forall|timeout: Timeout, received: AsyncReceived<C>|
            #[trigger] <C as AsConsumer>::receive_outcome(&consumer, timeout, received)
                == <C as AsAsyncConsumer>::receive_outcome(&consumer, timeout, received),
        forall|
            offset: <C as AsAsyncConsumer>::Offset,
            committed: Result<(), <C as AsAsyncConsumer>::Error>,
        |
            #[trigger] <C as AsConsumer>::commit_outcome(&consumer, offset, committed)
                == <C as AsAsyncConsumer>::commit_outcome(&consumer, offset, committed),
        forall|reported: Option<Vec<(String, Vec<Assignment>)>>|
            #[trigger] <C as AsConsumer>::assignments_outcome(&consumer, reported)
                == <C as AsAsyncConsumer>::assignments_outcome(&consumer, reported),
        forall|
            topic: Seq<char>,
            vgroup_id: VGroupId,
            offset: i64,
            after: C,
            moved: Result<(), <C as AsAsyncConsumer>::Error>,
        |
            #[trigger] <C as AsConsumer>::seek_outcome(
                &consumer,
                topic,
                vgroup_id,
                offset,
                after,
                moved,
            ) == <C as AsAsyncConsumer>::seek_outcome(
                &consumer,
                topic,
                vgroup_id,
                offset,
                after,
                moved,
            ),
{
}

/// Offering a blocking consumer to suspending code changes no outcome: an
/// operation of the derived suspending contract can complete with exactly
/// what the blocking operation can end in, on the same arguments, and can
/// leave the consumer exactly as the blocking operation can leave it; the
/// default timeout is the same.
pub proof fn lemma_suspending_bridge_is_transparent<C>(consumer: C) where
    C: AsConsumer + AsyncOnSync + Send + Sync,
    C::Offset: Send,
    C::Meta: IsAsyncMeta,
    C::Data: IsAsyncData,

    ensures
        <C as AsAsyncConsumer>::spec_default_timeout(&consumer)
            == <C as AsConsumer>::spec_default_timeout(&consumer),
        forall|topics: Seq<String>, after: C, subscribed: Result<(), <C as AsConsumer>::Error>|
            #[trigger] <C as AsAsyncConsumer>::subscribe_outcome(&consumer, topics, after, subscribed)
                == <C as AsConsumer>::subscribe_outcome(&consumer, topics, after, subscribed),
        forall|timeout: Timeout, received: Received<C>|
            #[trigger] <C as AsAsyncConsumer>::receive_outcome(&consumer, timeout, received)
                == <C as AsConsumer>::receive_outcome(&consumer, timeout, received),
        forall|offset: <C as AsConsumer>::Offset, committed: Result<(), <C as AsConsumer>::Error>|
            #[trigger] <C as AsAsyncConsumer>::commit_outcome(&consumer, offset, committed)
                == <C as AsConsumer>::commit_outcome(&consumer, offset, committed),
        forall|reported: Option<Vec<(String, Vec<Assignment>)>>|
            #[trigger] <C as AsAsyncConsumer>::assignments_outcome(&consumer, reported)
                == <C as AsConsumer>::assignments_outcome(&consumer, reported),
        forall|
            topic: Seq<char>,
            vgroup_id: VGroupId,
            offset: i64,
            after: C,
            moved: Result<(), <C as AsConsumer>::Error>,
        |
            #[trigger] <C as AsAsyncConsumer>::seek_outcome(
                &consumer,
                topic,
                vgroup_id,
                offset,
                after,
                moved,
            ) == <C as AsConsumer>::seek_outcome(
                &consumer,
                topic,
                vgroup_id,
                offset,
                after,
                moved,
            ),
{
}

/// A payload passes through either bridge with its answers unchanged: what
/// the derived contract can answer is exactly what the payload's own
/// contract can.
pub proof fn lemma_blocking_payload_is_transparent<M, D>(meta: M, data: D) where
    M: IsAsyncMeta + SyncOnAsync,
    D: IsAsyncData + SyncOnAsync,

    ensures
        forall|raw: Result<Vec<u8>, <M as IsAsyncMeta>::Error>|
            #[trigger] <M as IsMeta>::raw_meta_outcome(&meta, raw)
                == <M as IsAsyncMeta>::raw_meta_outcome(&meta, raw),
        forall|json: Result<<M as IsAsyncMeta>::Json, <M as IsAsyncMeta>::Error>|
            #[trigger] <M as IsMeta>::json_meta_outcome(&meta, json)
                == <M as IsAsyncMeta>::json_meta_outcome(&meta, json),
        forall|raw: Result<Vec<u8>, <D as IsAsyncData>::Error>|
            #[trigger] <D as IsData>::raw_data_outcome(&data, raw)
                == <D as IsAsyncData>::raw_data_outcome(&data, raw),
        forall|block: Result<Option<<D as IsAsyncData>::Block>, <D as IsAsyncData>::Error>|
            #[trigger] <D as IsData>::raw_block_outcome(&data, block)
                == <D as IsAsyncData>::raw_block_outcome(&data, block),
{
}

/// The same for a payload that answers at once and is offered to suspending
/// code.
pub proof fn lemma_suspending_payload_is_transparent<M, D>(meta: M, data: D) where
    M: IsMeta + AsyncOnSync + Send + Sync,
    D: IsData + AsyncOnSync + Send + Sync,

    ensures
        forall|raw: Result<Vec<u8>, <M as IsMeta>::Error>|
            #[trigger] <M as IsAsyncMeta>::raw_meta_outcome(&meta, raw)
                == <M as IsMeta>::raw_meta_outcome(&meta, raw),
        forall|json: Result<<M as IsMeta>::Json, <M as IsMeta>::Error>|
            #[trigger] <M as IsAsyncMeta>::json_meta_outcome(&meta, json)
                == <M as IsMeta>::json_meta_outcome(&meta, json),
        forall|raw: Result<Vec<u8>, <D as IsData>::Error>|
            #[trigger] <D as IsAsyncData>::raw_data_outcome(&data, raw)
                == <D as IsData>::raw_data_outcome(&data, raw),
        forall|block: Result<Option<<D as IsData>::Block>, <D as IsData>::Error>|
            #[trigger] <D as IsAsyncData>::raw_block_outcome(&data, block)
                == <D as IsData>::raw_block_outcome(&data, block),
{
}

// The blocking operations in the shape in which they are suspended: a
// target, one argument, and the contract of the operation.

/// The raw metadata, asked for at once.
fn raw_meta_now<T: IsMeta>(meta: &T, nothing: ()) -> (raw: Result<Vec<u8>, T::Error>)
    ensures
        meta.raw_meta_outcome(raw),
{
    meta.as_raw_meta()
}

/// The structured metadata, asked for at once.
fn json_meta_now<T: IsMeta>(meta: &T, nothing: ()) -> (json: Result<T::Json, T::Error>)
    ensures
        meta.json_meta_outcome(json),
{
    meta.as_json_meta()
}

/// The raw data, asked for at once.
fn raw_data_now<T: IsData>(data: &T, nothing: ()) -> (raw: Result<Vec<u8>, T::Error>)
    ensures
        data.raw_data_outcome(raw),
{
    data.as_raw_data()
}

/// The next block of rows, asked for at once.
fn raw_block_now<T: IsData>(data: &T, nothing: ()) -> (block: Result<Option<T::Block>, T::Error>)
    ensures
        data.raw_block_outcome(block),
{
    data.fetch_raw_block()
}

/// Subscribes at once.
fn subscribe_now<C: AsConsumer>(consumer: &mut C, topics: Vec<String>) -> (subscribed: Result<
    (),
    C::Error,
>)
    ensures
        old(consumer).subscribe_outcome(topics@, *final(consumer), subscribed),
{
    consumer.subscribe(topics)
}

/// Receives at once.
fn receive_now<C: AsConsumer>(consumer: &C, timeout: Timeout) -> (received: Received<C>)
    ensures
        consumer.receive_outcome(timeout, received),
{
    consumer.recv_timeout(timeout)
}

/// Commits at once.
fn commit_now<C: AsConsumer>(consumer: &C, offset: C::Offset) -> (committed: Result<(), C::Error>)
    ensures
        consumer.commit_outcome(offset, committed),
{
    consumer.commit(offset)
}

/// Gives the consumer up at once.
fn unsubscribe_now<C: AsConsumer>(consumer: C, nothing: ()) {
    consumer.unsubscribe()
}

/// Reports the assignments at once.
fn assignments_now<C: AsConsumer>(consumer: &C, nothing: ()) -> (reported: Option<
    Vec<(String, Vec<Assignment>)>,
>)
    ensures
        consumer.assignments_outcome(reported),
        reported matches Some(all) ==> all_within_window(all@),
{
    consumer.assignments()
}

/// Moves a partition at once; the target is the topic, the partition and
/// the offset.
fn seek_now<C: AsConsumer>(consumer: &mut C, target: (&str, VGroupId, i64)) -> (moved: Result<
    (),
    C::Error,
>)
    ensures
        old(consumer).seek_outcome(target.0@, target.1, target.2, *final(consumer), moved),
        moved is Ok ==> exists|all: Vec<(String, Vec<Assignment>)>|
            old(consumer).assignments_outcome(Some(all)) && #[trigger] spec_seek_allowed(
                all@,
                target.0@,
                target.1,
                target.2,
            ),
{
    consumer.offset_seek(target.0, target.1, target.2)
}

/// Metadata that answers at once is offered to suspending code as answers
/// that are worked out when they are resumed.
impl<T> IsAsyncMeta for T where T: IsMeta + AsyncOnSync + Send + Sync {
    type Json = <T as IsMeta>::Json;

    type Error = <T as IsMeta>::Error;

    open spec fn raw_meta_outcome(&self, raw: Result<Vec<u8>, Self::Error>) -> bool {
        <T as IsMeta>::raw_meta_outcome(self, raw)
    }

    open spec fn json_meta_outcome(&self, json: Result<Self::Json, Self::Error>) -> bool {
        <T as IsMeta>::json_meta_outcome(self, json)
    }

    fn as_raw_meta<'a>(&'a self) -> (operation: FutureObj<'a, Result<Vec<u8>, Self::Error>>) {
        later(self, (), raw_meta_now::<T>)
    }

    fn as_json_meta<'a>(&'a self) -> (operation: FutureObj<'a, Result<Self::Json, Self::Error>>) {
        later(self, (), json_meta_now::<T>)
    }
}

/// Data that answers at once is offered to suspending code as answers that
/// are worked out when they are resumed.
impl<T> IsAsyncData for T where T: IsData + AsyncOnSync + Send + Sync {
    type Block = <T as IsData>::Block;

    type Error = <T as IsData>::Error;

    open spec fn raw_data_outcome(&self, raw: Result<Vec<u8>, Self::Error>) -> bool {
        <T as IsData>::raw_data_outcome(self, raw)
    }

    open spec fn raw_block_outcome(&self, block: Result<Option<Self::Block>, Self::Error>) -> bool {
        <T as IsData>::raw_block_outcome(self, block)
    }

    fn as_raw_data<'a>(&'a self) -> (operation: FutureObj<'a, Result<Vec<u8>, Self::Error>>) {
        later(self, (), raw_data_now::<T>)
    }

    fn fetch_raw_block<'a>(&'a self) -> (operation: FutureObj<
        'a,
        Result<Option<Self::Block>, Self::Error>,
    >) {
        later(self, (), raw_block_now::<T>)
    }
}

/// A consumer whose operations block is offered to suspending code: each
/// operation, once resumed, calls the blocking one and completes with its
/// result, without suspending in between.
impl<C> AsAsyncConsumer for C where
    C: AsConsumer + AsyncOnSync + Send + Sync,
    C::Offset: Send,
    C::Meta: IsAsyncMeta,
    C::Data: IsAsyncData,
 {
    type Offset = <C as AsConsumer>::Offset;

    type Meta = <C as AsConsumer>::Meta;

    type Data = <C as AsConsumer>::Data;

    type Error = <C as AsConsumer>::Error;

    open spec fn spec_default_timeout(&self) -> Timeout {
        <C as AsConsumer>::spec_default_timeout(self)
    }

    open spec fn subscribe_outcome(
        &self,
        topics: Seq<String>,
        after: Self,
        subscribed: Result<(), Self::Error>,
    ) -> bool {
        <C as AsConsumer>::subscribe_outcome(self, topics, after, subscribed)
    }

    open spec fn receive_outcome(&self, timeout: Timeout, received: AsyncReceived<Self>) -> bool {
        <C as AsConsumer>::receive_outcome(self, timeout, received)
    }

    open spec fn commit_outcome(&self, offset: Self::Offset, committed: Result<(), Self::Error>)
        -> bool {
        <C as AsConsumer>::commit_outcome(self, offset, committed)
    }

    open spec fn assignments_outcome(&self, reported: Option<Vec<(String, Vec<Assignment>)>>)
        -> bool {
        <C as AsConsumer>::assignments_outcome(self, reported)
    }

    open spec fn seek_outcome(
        &self,
        topic: Seq<char>,
        vgroup_id: VGroupId,
        offset: i64,
        after: Self,
        moved: Result<(), Self::Error>,
    ) -> bool {
        <C as AsConsumer>::seek_outcome(self, topic, vgroup_id, offset, after, moved)
    }

    fn default_timeout(&self) -> (timeout: Timeout) {
        <C as AsConsumer>::default_timeout(self)
    }

    fn subscribe<'a>(&'a mut self, topics: Vec<String>) -> (operation: FutureObj<
        'a,
        Result<(), Self::Error>,
    >) {
        later(self, topics, subscribe_now::<C>)
    }

    fn recv_timeout<'a>(&'a self, timeout: Timeout) -> (operation: FutureObj<
        'a,
        AsyncReceived<Self>,
    >) {
        later(self, timeout, receive_now::<C>)
    }

    fn commit<'a>(&'a self, offset: Self::Offset) -> (operation: FutureObj<
        'a,
        Result<(), Self::Error>,
    >) {
        later(self, offset, commit_now::<C>)
    }

    fn unsubscribe<'a>(self) -> FutureObj<'a, ()> where Self: 'a {
        later(self, (), unsubscribe_now::<C>)
    }

    fn assignments<'a>(&'a self) -> (operation: FutureObj<
        'a,
        Option<Vec<(String, Vec<Assignment>)>>,
    >) {
        later(self, (), assignments_now::<C>)
    }

    fn offset_seek<'a>(&'a mut self, topic: &'a str, vgroup_id: VGroupId, offset: i64) -> (operation:
        FutureObj<'a, Result<(), Self::Error>>) {
        later(self, (topic, vgroup_id, offset), seek_now::<C>)
    }
}

} // verus!
