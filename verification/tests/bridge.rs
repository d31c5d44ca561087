use std::collections::VecDeque;
use std::future::Future;
use std::sync::Mutex;
use std::task::Poll;

use futures::executor::block_on;
use futures::future::{lazy, poll_fn};
use futures::task::FutureObj;
use tmq::{
    AsAsyncConsumer, AsConsumer, Assignment, AsyncOnSync, IsAsyncData, IsAsyncMeta, IsData,
    IsMeta, IsOffset, MessageSet, SyncOnAsync, Timeout, VGroupId,
};

#[derive(Debug, Clone, PartialEq, Eq)]
struct At {
    topic: String,
    vgroup_id: VGroupId,
    offset: i64,
}

impl At {
    fn new(topic: &str, vgroup_id: VGroupId, offset: i64) -> At {
        At { topic: topic.to_string(), vgroup_id, offset }
    }
}

impl IsOffset for At {
    fn database(&self) -> &str {
        "db"
    }

    fn topic(&self) -> &str {
        &self.topic
    }

    fn vgroup_id(&self) -> VGroupId {
        self.vgroup_id
    }
}

/// What every double in this file logs, in the order in which it ran.
type Log = Mutex<Vec<String>>;

fn logged(log: &Log) -> Vec<String> {
    log.lock().unwrap().clone()
}

/// Completes with `value` after having suspended once.
fn after_a_pause<'a, T: Send + 'a>(value: T) -> FutureObj<'a, T> {
    let mut value = Some(value);
    let mut paused = false;
    FutureObj::new(Box::new(poll_fn(move |cx| {
        if paused {
            Poll::Ready(value.take().expect("polled once after the pause"))
        } else {
            paused = true;
            cx.waker().wake_by_ref();
            Poll::Pending
        }
    })))
}

// Payloads that answer behind suspension points.

#[derive(Debug, PartialEq, Eq)]
struct RemoteMeta(Vec<u8>);

impl SyncOnAsync for RemoteMeta {
    fn run_to_completion<F: Future>(operation: F) -> F::Output {
        block_on(operation)
    }
}

impl IsAsyncMeta for RemoteMeta {
    type Json = String;
    type Error = String;

    fn as_raw_meta<'a>(&'a self) -> FutureObj<'a, Result<Vec<u8>, String>> {
        after_a_pause(Ok(self.0.clone()))
    }

    fn as_json_meta<'a>(&'a self) -> FutureObj<'a, Result<String, String>> {
        after_a_pause(String::from_utf8(self.0.clone()).map_err(|_| "not text".to_string()))
    }
}

#[derive(Debug)]
struct RemoteRows(Mutex<VecDeque<Vec<u8>>>);

impl SyncOnAsync for RemoteRows {
    fn run_to_completion<F: Future>(operation: F) -> F::Output {
        block_on(operation)
    }
}

impl IsAsyncData for RemoteRows {
    type Block = Vec<u8>;
    type Error = String;

    fn as_raw_data<'a>(&'a self) -> FutureObj<'a, Result<Vec<u8>, String>> {
        let raw: Vec<u8> = self.0.lock().unwrap().iter().flatten().copied().collect();
        after_a_pause(if raw.is_empty() { Err("no rows left".to_string()) } else { Ok(raw) })
    }

    fn fetch_raw_block<'a>(&'a self) -> FutureObj<'a, Result<Option<Vec<u8>>, String>> {
        FutureObj::new(Box::new(lazy(move |_| Ok(self.0.lock().unwrap().pop_front()))))
    }
}

type RemoteReceived = Result<Option<(At, MessageSet<RemoteMeta, RemoteRows>)>, String>;

/// A driver whose operations suspend.
struct Remote {
    log: Log,
    pending: Mutex<VecDeque<RemoteReceived>>,
    assigned: Mutex<Option<Vec<(String, Vec<Assignment>)>>>,
}

impl Remote {
    fn new() -> Remote {
        Remote {
            log: Mutex::new(Vec::new()),
            pending: Mutex::new(VecDeque::new()),
            assigned: Mutex::new(None),
        }
    }

    fn note(&self, what: String) {
        self.log.lock().unwrap().push(what);
    }
}

impl SyncOnAsync for Remote {
    fn run_to_completion<F: Future>(operation: F) -> F::Output {
        block_on(operation)
    }
}

impl AsAsyncConsumer for Remote {
    type Offset = At;
    type Meta = RemoteMeta;
    type Data = RemoteRows;
    type Error = String;

    fn default_timeout(&self) -> Timeout {
        Timeout::from_millis(250)
    }

    fn subscribe<'a>(&'a mut self, topics: Vec<String>) -> FutureObj<'a, Result<(), String>> {
        FutureObj::new(Box::new(lazy(move |_| {
            self.note(format!("subscribe {}", topics.join(",")));
            if topics.is_empty() {
                return Err("no topics".to_string());
            }
            let assigned = topics
                .iter()
                .map(|topic| (topic.clone(), vec![Assignment::new(3, 0, 0, 10)]))
                .collect();
            *self.assigned.lock().unwrap() = Some(assigned);
            Ok(())
        })))
    }

    fn recv_timeout<'a>(&'a self, timeout: Timeout) -> FutureObj<'a, RemoteReceived> {
        self.note(format!("receive {}", timeout.as_raw_timeout()));
        after_a_pause(self.pending.lock().unwrap().pop_front().unwrap_or(Ok(None)))
    }

    fn commit<'a>(&'a self, offset: At) -> FutureObj<'a, Result<(), String>> {
        FutureObj::new(Box::new(lazy(move |_| {
            self.note(format!("commit {}", offset.offset));
            let mut assigned = self.assigned.lock().unwrap();
            let slots = assigned.iter_mut().flatten().filter(|(topic, _)| *topic == offset.topic);
            for slot in slots.flat_map(|(_, list)| list.iter_mut()) {
                if slot.vgroup_id() == offset.vgroup_id && slot.admits(offset.offset) {
                    *slot = Assignment::new(slot.vgroup_id(), offset.offset, slot.begin(), slot.end());
                    return Ok(());
                }
            }
            Err("stale partition assignment".to_string())
        })))
    }

    fn assignments<'a>(&'a self) -> FutureObj<'a, Option<Vec<(String, Vec<Assignment>)>>> {
        self.note("assignments".to_string());
        after_a_pause(self.assigned.lock().unwrap().clone())
    }

    fn offset_seek<'a>(
        &'a mut self,
        topic: &'a str,
        vgroup_id: VGroupId,
        offset: i64,
    ) -> FutureObj<'a, Result<(), String>> {
        FutureObj::new(Box::new(lazy(move |_| {
            self.note(format!("seek {} {} {}", topic, vgroup_id, offset));
            let mut assigned = self.assigned.lock().unwrap();
            let all = assigned.as_mut().ok_or("not subscribed")?;
            if !tmq::assignment::seek_allowed(all, topic, vgroup_id, offset) {
                return Err(format!("offset {} is out of range", offset));
            }
            for slot in all.iter_mut().filter(|(name, _)| name == topic).flat_map(|(_, l)| l) {
                if slot.vgroup_id() == vgroup_id {
                    *slot = Assignment::new(vgroup_id, offset, slot.begin(), slot.end());
                }
            }
            Ok(())
        })))
    }
}

fn remote_message(offset: i64) -> RemoteReceived {
    let rows = RemoteRows(Mutex::new(VecDeque::from(vec![b"r1".to_vec(), b"r2".to_vec()])));
    Ok(Some((At::new("topic_a", 3, offset), MessageSet::MetaData(RemoteMeta(b"{}".to_vec()), rows))))
}

// Payloads and a driver that answer at once.

#[derive(Debug, PartialEq, Eq)]
struct LocalMeta(Vec<u8>);

impl AsyncOnSync for LocalMeta {}

impl IsMeta for LocalMeta {
    type Json = String;
    type Error = String;

    fn as_raw_meta(&self) -> Result<Vec<u8>, String> {
        Ok(self.0.clone())
    }

    fn as_json_meta(&self) -> Result<String, String> {
        String::from_utf8(self.0.clone()).map_err(|_| "not text".to_string())
    }
}

#[derive(Debug)]
struct LocalRows(Mutex<VecDeque<Vec<u8>>>);

impl AsyncOnSync for LocalRows {}

impl IsData for LocalRows {
    type Block = Vec<u8>;
    type Error = String;

    fn as_raw_data(&self) -> Result<Vec<u8>, String> {
        Ok(self.0.lock().unwrap().iter().flatten().copied().collect())
    }

    fn fetch_raw_block(&self) -> Result<Option<Vec<u8>>, String> {
        Ok(self.0.lock().unwrap().pop_front())
    }
}

type LocalReceived = Result<Option<(At, MessageSet<LocalMeta, LocalRows>)>, String>;

/// A driver whose operations block.
struct Local {
    log: Log,
    pending: Mutex<VecDeque<LocalReceived>>,
    assigned: Option<Vec<(String, Vec<Assignment>)>>,
}

impl Local {
    fn new() -> Local {
        Local { log: Mutex::new(Vec::new()), pending: Mutex::new(VecDeque::new()), assigned: None }
    }

    fn note(&self, what: String) {
        self.log.lock().unwrap().push(what);
    }
}

impl AsyncOnSync for Local {}

impl AsConsumer for Local {
    type Offset = At;
    type Meta = LocalMeta;
    type Data = LocalRows;
    type Error = String;

    fn default_timeout(&self) -> Timeout {
        Timeout::from_secs(1)
    }

    fn subscribe(&mut self, topics: Vec<String>) -> Result<(), String> {
        self.note(format!("subscribe {}", topics.join(",")));
        if topics.is_empty() {
            return Err("no topics".to_string());
        }
        self.assigned = Some(
            topics.iter().map(|t| (t.clone(), vec![Assignment::new(3, 4, 0, 10)])).collect(),
        );
        Ok(())
    }

    fn recv_timeout(&self, timeout: Timeout) -> LocalReceived {
        self.note(format!("receive {}", timeout.as_raw_timeout()));
        self.pending.lock().unwrap().pop_front().unwrap_or(Ok(None))
    }

    fn commit(&self, offset: At) -> Result<(), String> {
        self.note(format!("commit {}", offset.offset));
        if offset.vgroup_id == 3 {
            Ok(())
        } else {
            Err("stale partition assignment".to_string())
        }
    }

    fn assignments(&self) -> Option<Vec<(String, Vec<Assignment>)>> {
        self.note("assignments".to_string());
        self.assigned.clone()
    }

    fn offset_seek(&mut self, topic: &str, vg_id: VGroupId, offset: i64) -> Result<(), String> {
        self.note(format!("seek {} {} {}", topic, vg_id, offset));
        let all = self.assigned.as_mut().ok_or("not subscribed")?;
        if !tmq::assignment::seek_allowed(all, topic, vg_id, offset) {
            return Err(format!("offset {} is out of range", offset));
        }
        for slot in all.iter_mut().filter(|(name, _)| name == topic).flat_map(|(_, l)| l) {
            if slot.vgroup_id() == vg_id {
                *slot = Assignment::new(vg_id, offset, slot.begin(), slot.end());
            }
        }
        Ok(())
    }
}

fn local_message(offset: i64) -> LocalReceived {
    let rows = LocalRows(Mutex::new(VecDeque::from(vec![b"r1".to_vec()])));
    Ok(Some((At::new("topic_a", 3, offset), MessageSet::MetaData(LocalMeta(b"{}".to_vec()), rows))))
}

fn names(topics: &[&str]) -> Vec<String> {
    topics.iter().map(|t| t.to_string()).collect()
}

#[test]
fn blocking_receive_gives_what_the_suspended_receive_completes_with() {
    let direct = Remote::new();
    direct.pending.lock().unwrap().push_back(remote_message(10));
    direct.pending.lock().unwrap().push_back(Err("connection lost".to_string()));
    let bridged = Remote::new();
    bridged.pending.lock().unwrap().push_back(remote_message(10));
    bridged.pending.lock().unwrap().push_back(Err("connection lost".to_string()));

    for _ in 0..3 {
        let timeout = Timeout::from_millis(100);
        let completed = block_on(<Remote as AsAsyncConsumer>::recv_timeout(&direct, timeout));
        let returned = <Remote as AsConsumer>::recv_timeout(&bridged, timeout);
        match (completed, returned) {
            (Ok(Some((at, set))), Ok(Some((bridged_at, bridged_set)))) => {
                assert_eq!(at, bridged_at);
                assert_eq!(set.meta(), bridged_set.meta());
                assert_eq!(set.has_data(), bridged_set.has_data());
            }
            (Ok(None), Ok(None)) => {}
            (Err(failure), Err(bridged_failure)) => assert_eq!(failure, bridged_failure),
            (completed, returned) => panic!("{:?} became {:?}", completed, returned),
        }
    }
    assert_eq!(logged(&direct.log), logged(&bridged.log));
    assert_eq!(logged(&bridged.log), vec!["receive 100"; 3]);
}

#[test]
fn blocking_bridge_runs_every_operation_to_completion() {
    let mut consumer = Remote::new();
    assert_eq!(<Remote as AsConsumer>::assignments(&consumer), None);
    assert_eq!(
        <Remote as AsConsumer>::subscribe(&mut consumer, Vec::new()),
        Err("no topics".to_string())
    );
    assert_eq!(<Remote as AsConsumer>::subscribe(&mut consumer, names(&["topic_a"])), Ok(()));
    consumer.pending.lock().unwrap().push_back(remote_message(10));
    let (at, set) = <Remote as AsConsumer>::recv_timeout(&consumer, Timeout::from_millis(100))
        .expect("the backend works")
        .expect("a message is pending");
    assert!(matches!(set, MessageSet::MetaData(_, _)));
    assert_eq!(at.vgroup_id(), 3);
    assert_eq!(<Remote as AsConsumer>::commit(&consumer, at), Ok(()));
    assert_eq!(
        <Remote as AsConsumer>::assignments(&consumer),
        Some(vec![("topic_a".to_string(), vec![Assignment::new(3, 10, 0, 10)])])
    );
    assert_eq!(
        <Remote as AsConsumer>::offset_seek(&mut consumer, "topic_a", 3, 15),
        Err("offset 15 is out of range".to_string())
    );
    assert_eq!(<Remote as AsConsumer>::offset_seek(&mut consumer, "topic_a", 3, 2), Ok(()));
    assert_eq!(
        logged(&consumer.log),
        vec![
            "assignments",
            "subscribe ",
            "subscribe topic_a",
            "receive 100",
            "commit 10",
            "assignments",
            "seek topic_a 3 15",
            "seek topic_a 3 2"
        ]
    );
}

#[test]
fn blocking_bridge_keeps_the_default_timeout() {
    let consumer = Remote::new();
    assert_eq!(<Remote as AsConsumer>::default_timeout(&consumer), Timeout::from_millis(250));
    assert!(matches!(<Remote as AsConsumer>::recv(&consumer), Ok(None)));
    assert!(<Remote as AsConsumer>::iter(&consumer).next().is_none());
    assert_eq!(logged(&consumer.log), vec!["receive 250", "receive 250"]);
}

#[test]
fn blocking_bridge_answers_for_meta_and_data() {
    let meta = RemoteMeta(b"{\"a\":1}".to_vec());
    assert_eq!(<RemoteMeta as IsMeta>::as_raw_meta(&meta), Ok(b"{\"a\":1}".to_vec()));
    assert_eq!(<RemoteMeta as IsMeta>::as_json_meta(&meta), Ok("{\"a\":1}".to_string()));
    assert_eq!(
        <RemoteMeta as IsMeta>::as_json_meta(&RemoteMeta(vec![0xff])),
        Err("not text".to_string())
    );
    let rows = RemoteRows(Mutex::new(VecDeque::from(vec![b"r1".to_vec(), b"r2".to_vec()])));
    assert_eq!(<RemoteRows as IsData>::as_raw_data(&rows), Ok(b"r1r2".to_vec()));
    assert_eq!(<RemoteRows as IsData>::fetch_raw_block(&rows), Ok(Some(b"r1".to_vec())));
    assert_eq!(<RemoteRows as IsData>::fetch_raw_block(&rows), Ok(Some(b"r2".to_vec())));
    assert_eq!(<RemoteRows as IsData>::fetch_raw_block(&rows), Ok(None));
    assert_eq!(<RemoteRows as IsData>::as_raw_data(&rows), Err("no rows left".to_string()));
}

#[test]
fn data_only_cursor_runs_over_a_suspending_consumer() {
    let consumer = Remote::new();
    consumer.pending.lock().unwrap().push_back(remote_message(1));
    let mut cursor = <Remote as AsConsumer>::iter_data_only(&consumer, Timeout::NoWait);
    let (at, rows) = cursor.next().expect("an item").expect("data");
    assert_eq!(at.offset, 1);
    assert_eq!(<RemoteRows as IsData>::as_raw_data(&rows), Ok(b"r1r2".to_vec()));
    assert!(cursor.next().is_none());
}

#[test]
fn suspended_operations_run_when_they_are_resumed() {
    let mut consumer = Local::new();
    consumer.pending.lock().unwrap().push_back(local_message(7));

    let receive = <Local as AsAsyncConsumer>::recv_timeout(&consumer, Timeout::from_millis(5));
    let report = <Local as AsAsyncConsumer>::assignments(&consumer);
    assert_eq!(logged(&consumer.log), Vec::<String>::new());
    assert_eq!(block_on(report), None);
    assert_eq!(logged(&consumer.log), vec!["assignments"]);
    let (at, _) = block_on(receive).expect("the backend works").expect("a message is pending");
    assert_eq!(at.offset, 7);
    assert_eq!(logged(&consumer.log), vec!["assignments", "receive 5"]);

    let subscribe = <Local as AsAsyncConsumer>::subscribe(&mut consumer, names(&["topic_a"]));
    drop(subscribe);
    assert_eq!(consumer.assigned, None);
    assert_eq!(logged(&consumer.log), vec!["assignments", "receive 5"]);
}

#[test]
fn suspended_operations_complete_with_what_the_blocking_ones_return() {
    let mut direct = Local::new();
    let mut bridged = Local::new();
    for consumer in [&direct, &bridged] {
        consumer.pending.lock().unwrap().push_back(Err("connection lost".to_string()));
    }

    assert_eq!(
        block_on(<Local as AsAsyncConsumer>::subscribe(&mut bridged, Vec::new())),
        <Local as AsConsumer>::subscribe(&mut direct, Vec::new())
    );
    assert_eq!(
        block_on(<Local as AsAsyncConsumer>::subscribe(&mut bridged, names(&["topic_a"]))),
        <Local as AsConsumer>::subscribe(&mut direct, names(&["topic_a"]))
    );
    let timeout = Timeout::from_secs(2);
    let completed = block_on(<Local as AsAsyncConsumer>::recv_timeout(&bridged, timeout));
    let returned = <Local as AsConsumer>::recv_timeout(&direct, timeout);
    assert_eq!(completed.err(), Some("connection lost".to_string()));
    assert_eq!(returned.err(), Some("connection lost".to_string()));
    assert!(matches!(block_on(<Local as AsAsyncConsumer>::recv_timeout(&bridged, timeout)), Ok(None)));
    assert!(matches!(<Local as AsConsumer>::recv_timeout(&direct, timeout), Ok(None)));
    for (vgroup_id, offset) in [(3, 5), (4, 5)] {
        assert_eq!(
            block_on(<Local as AsAsyncConsumer>::commit(&bridged, At::new("topic_a", vgroup_id, offset))),
            <Local as AsConsumer>::commit(&direct, At::new("topic_a", vgroup_id, offset))
        );
    }
    for offset in [15, 10, -1, 0] {
        assert_eq!(
            block_on(<Local as AsAsyncConsumer>::offset_seek(&mut bridged, "topic_a", 3, offset)),
            <Local as AsConsumer>::offset_seek(&mut direct, "topic_a", 3, offset)
        );
    }
    assert_eq!(
        block_on(<Local as AsAsyncConsumer>::offset_seek(&mut bridged, "topic_a", 3, 15)),
        Err("offset 15 is out of range".to_string())
    );
    assert_eq!(
        <Local as AsConsumer>::offset_seek(&mut direct, "topic_a", 3, 15),
        Err("offset 15 is out of range".to_string())
    );
    assert_eq!(
        block_on(<Local as AsAsyncConsumer>::assignments(&bridged)),
        <Local as AsConsumer>::assignments(&direct)
    );
    assert_eq!(
        <Local as AsAsyncConsumer>::default_timeout(&bridged),
        <Local as AsConsumer>::default_timeout(&direct)
    );
    assert_eq!(logged(&bridged.log), logged(&direct.log));
    assert_eq!(logged(&bridged.log).len(), 12);
}

#[test]
fn suspending_bridge_answers_for_meta_and_data() {
    let meta = LocalMeta(b"{}".to_vec());
    assert_eq!(block_on(<LocalMeta as IsAsyncMeta>::as_raw_meta(&meta)), Ok(b"{}".to_vec()));
    assert_eq!(block_on(<LocalMeta as IsAsyncMeta>::as_json_meta(&meta)), Ok("{}".to_string()));
    assert_eq!(
        block_on(<LocalMeta as IsAsyncMeta>::as_json_meta(&LocalMeta(vec![0xff]))),
        Err("not text".to_string())
    );
    let rows = LocalRows(Mutex::new(VecDeque::from(vec![b"r1".to_vec(), b"r2".to_vec()])));
    let first = <LocalRows as IsAsyncData>::fetch_raw_block(&rows);
    assert_eq!(block_on(<LocalRows as IsAsyncData>::as_raw_data(&rows)), Ok(b"r1r2".to_vec()));
    assert_eq!(block_on(first), Ok(Some(b"r1".to_vec())));
    assert_eq!(block_on(<LocalRows as IsAsyncData>::as_raw_data(&rows)), Ok(b"r2".to_vec()));
    assert_eq!(block_on(<LocalRows as IsAsyncData>::fetch_raw_block(&rows)), Ok(Some(b"r2".to_vec())));
    assert_eq!(block_on(<LocalRows as IsAsyncData>::fetch_raw_block(&rows)), Ok(None));
}

#[test]
fn suspending_unsubscribe_gives_the_consumer_up_when_resumed() {
    let consumer = Local::new();
    block_on(<Local as AsAsyncConsumer>::unsubscribe(consumer));
    let consumer = Remote::new();
    block_on(<Remote as AsAsyncConsumer>::unsubscribe(consumer));
}

#[test]
fn topic_assignment_picks_from_the_reported_assignments() {
    let mut consumer = Remote::new();
    assert_eq!(block_on(consumer.topic_assignment("topic_a")), Vec::new());
    block_on(<Remote as AsAsyncConsumer>::subscribe(&mut consumer, names(&["topic_a", "topic_b"])))
        .expect("topics are named");
    block_on(<Remote as AsAsyncConsumer>::commit(&consumer, At::new("topic_b", 3, 6)))
        .expect("assigned");
    assert_eq!(block_on(consumer.topic_assignment("topic_a")), vec![Assignment::new(3, 0, 0, 10)]);
    assert_eq!(block_on(consumer.topic_assignment("topic_b")), vec![Assignment::new(3, 6, 0, 10)]);
    assert_eq!(block_on(consumer.topic_assignment("topic_c")), Vec::new());

    let mut consumer = Local::new();
    assert_eq!(block_on(consumer.topic_assignment("topic_a")), Vec::new());
    <Local as AsConsumer>::subscribe(&mut consumer, names(&["topic_a"])).expect("named");
    let picked = consumer.topic_assignment("topic_a");
    assert_eq!(logged(&consumer.log), vec!["assignments", "subscribe topic_a"]);
    assert_eq!(block_on(picked), vec![Assignment::new(3, 4, 0, 10)]);
}
