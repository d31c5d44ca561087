//! Where a consumer stands in each partition that it is assigned.

use crate::text::same_text;
use vstd::prelude::*;

verus! {

/// The identity of a partition within its topic.
pub type VGroupId = i32;

/// A snapshot of a consumer's progress in one partition: the partition, the
/// offset consumed so far, and the window of offsets that can be asked for.
#[derive(Debug, Copy, Clone, PartialEq, Eq, Structural)]
pub struct Assignment {
    vgroup_id: VGroupId,
    offset: i64,
    begin: i64,
    end: i64,
}

impl Assignment {
    /// The partition that the snapshot is of.
    pub closed spec fn spec_vgroup_id(&self) -> VGroupId {
        self.vgroup_id
    }

    /// The offset consumed so far.
    pub closed spec fn spec_current_offset(&self) -> i64 {
        self.offset
    }

    /// The first offset of the window.
    pub closed spec fn spec_begin(&self) -> i64 {
        self.begin
    }

    /// The last offset of the window.
    pub closed spec fn spec_end(&self) -> i64 {
        self.end
    }

    /// Whether the current offset lies in the window, as it does in every
    /// snapshot that a backend has filled in.
    pub open spec fn spec_within_window(&self) -> bool {
        self.spec_begin() <= self.spec_current_offset() <= self.spec_end()
    }

    /// Whether `offset` lies in the window, so that the partition can be
    /// moved to it.
    pub open spec fn spec_admits(&self, offset: i64) -> bool {
        self.spec_begin() <= offset <= self.spec_end()
    }

    /// A snapshot of the partition `vgroup_id` at `offset`, with the window
    /// from `begin` to `end`.
    pub fn new(vgroup_id: VGroupId, offset: i64, begin: i64, end: i64) -> (assignment: Assignment)
        ensures
            assignment.spec_vgroup_id() == vgroup_id,
            assignment.spec_current_offset() == offset,
            assignment.spec_begin() == begin,
            assignment.spec_end() == end,
    {
        Assignment { vgroup_id, offset, begin, end }
    }

    /// The partition that the snapshot is of.
    #[verifier::when_used_as_spec(spec_vgroup_id)]
    pub fn vgroup_id(&self) -> (id: VGroupId)
        ensures
            id == self.spec_vgroup_id(),
    {
        self.vgroup_id
    }

    /// The offset consumed so far.
    #[verifier::when_used_as_spec(spec_current_offset)]
    pub fn current_offset(&self) -> (offset: i64)
        ensures
            offset == self.spec_current_offset(),
    {
        self.offset
    }

    /// The first offset of the window.
    #[verifier::when_used_as_spec(spec_begin)]
    pub fn begin(&self) -> (begin: i64)
        ensures
            begin == self.spec_begin(),
    {
        self.begin
    }

    /// The last offset of the window.
    #[verifier::when_used_as_spec(spec_end)]
    pub fn end(&self) -> (end: i64)
        ensures
            end == self.spec_end(),
    {
        self.end
    }

    /// Whether the current offset lies in the window.
    #[verifier::when_used_as_spec(spec_within_window)]
    pub fn within_window(&self) -> (within: bool)
        ensures
            within == self.spec_within_window(),
    {
        self.begin <= self.offset && self.offset <= self.end
    }

    /// Whether `offset` lies in the window.
    #[verifier::when_used_as_spec(spec_admits)]
    pub fn admits(&self, offset: i64) -> (admitted: bool)
        ensures
            admitted == self.spec_admits(offset),
    {
        self.begin <= offset && offset <= self.end
    }
}

impl Default for Assignment {
    /// The snapshot of partition `0` at offset `0` with the window from `0`
    /// to `0`.
    fn default() -> (assignment: Assignment)
        ensures
            assignment.spec_vgroup_id() == 0,
            assignment.spec_current_offset() == 0,
            assignment.spec_begin() == 0,
            assignment.spec_end() == 0,
    {
        Assignment { vgroup_id: 0, offset: 0, begin: 0, end: 0 }
    }
}

/// The snapshots that `assignments` holds for `topic`: those of every entry
/// under that name, in the order of the entries.
pub open spec fn spec_topic_assignment(
    assignments: Seq<(String, Vec<Assignment>)>,
    topic: Seq<char>,
) -> Seq<Assignment>
    decreases assignments.len(),
{
    if assignments.len() == 0 {
        Seq::empty()
    } else {
        let before = spec_topic_assignment(assignments.drop_last(), topic);
        if assignments.last().0@ == topic {
            before + assignments.last().1@
        } else {
            before
        }
    }
}

/// The snapshots that a report holds for `topic`: none where nothing is
/// reported.
pub open spec fn spec_reported_for_topic(
    reported: Option<Vec<(String, Vec<Assignment>)>>,
    topic: Seq<char>,
) -> Seq<Assignment> {
    match reported {
        Some(assignments) => spec_topic_assignment(assignments@, topic),
        None => Seq::empty(),
    }
}

/// Whether every snapshot in `assignments` has its offset in its window.
pub open spec fn all_within_window(assignments: Seq<(String, Vec<Assignment>)>) -> bool {
    forall|i: int, j: int|
        0 <= i < assignments.len() && 0 <= j < assignments[i].1@.len()
            ==> (#[trigger] assignments[i].1@[j]).spec_within_window()
}

/// Whether the partition `vgroup_id` of `topic` can be moved to `offset`: it
/// is assigned, and the window of its snapshot holds the offset.
pub open spec fn spec_seek_allowed(
    assignments: Seq<(String, Vec<Assignment>)>,
    topic: Seq<char>,
    vgroup_id: VGroupId,
    offset: i64,
) -> bool {
    let of_topic = spec_topic_assignment(assignments, topic);
    exists|k: int|
        0 <= k < of_topic.len() && (#[trigger] of_topic[k]).spec_vgroup_id() == vgroup_id
            && of_topic[k].spec_admits(offset)
}

/// An assignment is its four values: two with the same values are the same.
pub proof fn lemma_assignment_by_values(a: Assignment, b: Assignment)
    requires
        a.spec_vgroup_id() == b.spec_vgroup_id(),
        a.spec_current_offset() == b.spec_current_offset(),
        a.spec_begin() == b.spec_begin(),
        a.spec_end() == b.spec_end(),
    ensures
        a == b,
{
}

/// Picking the snapshots of one topic keeps what holds of all: where every
/// snapshot has its offset in its window, so has every one that is picked.
pub proof fn lemma_topic_assignment_within_window(
    assignments: Seq<(String, Vec<Assignment>)>,
    topic: Seq<char>,
)
    requires
        all_within_window(assignments),
    ensures
        forall|k: int|
            0 <= k < spec_topic_assignment(assignments, topic).len() ==> (
            #[trigger] spec_topic_assignment(assignments, topic)[k]).spec_within_window(),
    decreases assignments.len(),
{
    if assignments.len() > 0 {
        let before = assignments.drop_last();
        let last: int = assignments.len() - 1;
        assert forall|i: int, j: int|
            0 <= i < before.len() && 0 <= j < before[i].1@.len() implies (
        #[trigger] before[i].1@[j]).spec_within_window() by {
            assert(before[i] == assignments[i]);
        }
        lemma_topic_assignment_within_window(before, topic);
        let picked = spec_topic_assignment(assignments, topic);
        let earlier = spec_topic_assignment(before, topic);
        assert forall|k: int| 0 <= k < picked.len() implies (
        #[trigger] picked[k]).spec_within_window() by {
            if k >= earlier.len() {
                assert(picked[k] == assignments[last].1@[k - earlier.len()]);
            }
        }
    }
}

/// A partition can be moved only to an offset in the window of a snapshot
/// that the assignments hold for it under the topic.
pub proof fn lemma_seek_allowed_within_window(
    assignments: Seq<(String, Vec<Assignment>)>,
    topic: Seq<char>,
    vgroup_id: VGroupId,
    offset: i64,
)
    requires
        spec_seek_allowed(assignments, topic, vgroup_id, offset),
    ensures
        exists|i: int, j: int|
            0 <= i < assignments.len() && 0 <= j < assignments[i].1@.len() && assignments[i].0@
                == topic && (#[trigger] assignments[i].1@[j]).spec_vgroup_id() == vgroup_id
                && assignments[i].1@[j].spec_begin() <= offset <= assignments[i].1@[j].spec_end(),
{
    let of_topic = spec_topic_assignment(assignments, topic);
    let k = choose|k: int|
        0 <= k < of_topic.len() && (#[trigger] of_topic[k]).spec_vgroup_id() == vgroup_id
            && of_topic[k].spec_admits(offset);
    lemma_topic_assignment_source(assignments, topic, k);
}

/// Every snapshot picked for a topic stands in an entry under that topic.
proof fn lemma_topic_assignment_source(
    assignments: Seq<(String, Vec<Assignment>)>,
    topic: Seq<char>,
    k: int,
)
    requires
        0 <= k < spec_topic_assignment(assignments, topic).len(),
    ensures
        exists|i: int, j: int|
            0 <= i < assignments.len() && 0 <= j < assignments[i].1@.len() && assignments[i].0@
                == topic && #[trigger] assignments[i].1@[j] == spec_topic_assignment(
                assignments,
                topic,
            )[k],
    decreases assignments.len(),
{
    let before = assignments.drop_last();
    let earlier = spec_topic_assignment(before, topic);
    let last: int = assignments.len() - 1;
    if k < earlier.len() {
        lemma_topic_assignment_source(before, topic, k);
        let (i, j) = choose|i: int, j: int|
            0 <= i < before.len() && 0 <= j < before[i].1@.len() && before[i].0@ == topic
                && #[trigger] before[i].1@[j] == earlier[k];
        assert(assignments[i].1@[j] == spec_topic_assignment(assignments, topic)[k]);
    } else {
        assert(assignments[last].1@[k - earlier.len()] == spec_topic_assignment(
            assignments,
            topic,
        )[k]);
    }
}

/// The snapshots that `assignments` holds for `topic` alone.
pub fn topic_assignment(assignments: &Vec<(String, Vec<Assignment>)>, topic: &str) -> (of_topic:
    Vec<Assignment>)
    ensures
        of_topic@ == spec_topic_assignment(assignments@, topic@),
{
    let mut of_topic: Vec<Assignment> = Vec::new();
    let mut i: usize = 0;
    while i < assignments.len()
        invariant
            i <= assignments.len(),
            of_topic@ == spec_topic_assignment(assignments@.take(i as int), topic@),
        decreases assignments.len() - i,
    {
        let entry = &assignments[i];
        let ghost before = of_topic@;
        assert(assignments@.take(i + 1).drop_last() =~= assignments@.take(i as int));
        if same_text(entry.0.as_str(), topic) {
            let mut j: usize = 0;
            while j < entry.1.len()
                invariant
                    j <= entry.1.len(),
                    of_topic@ == before + entry.1@.take(j as int),
                decreases entry.1.len() - j,
            {
                of_topic.push(entry.1[j]);
                j += 1;
            }
            assert(entry.1@.take(entry.1.len() as int) =~= entry.1@);
        }
        i += 1;
    }
    assert(assignments@.take(assignments.len() as int) =~= assignments@);
    of_topic
}

/// The snapshots that a report holds for `topic` alone.
pub fn reported_for_topic(reported: Option<Vec<(String, Vec<Assignment>)>>, topic: &str) -> (of_topic:
    Vec<Assignment>)
    ensures
        of_topic@ == spec_reported_for_topic(reported, topic@),
{
    match reported {
        Some(assignments) => topic_assignment(&assignments, topic),
        None => Vec::new(),
    }
}

/// Whether the partition `vgroup_id` of `topic` can be moved to `offset`,
/// going by the snapshots in `assignments`.
pub fn seek_allowed(
    assignments: &Vec<(String, Vec<Assignment>)>,
    topic: &str,
    vgroup_id: VGroupId,
    offset: i64,
) -> (allowed: bool)
    ensures
        allowed == spec_seek_allowed(assignments@, topic@, vgroup_id, offset),
{
    let of_topic = topic_assignment(assignments, topic);
    let mut k: usize = 0;
    while k < of_topic.len()
        invariant
            k <= of_topic.len(),
            of_topic@ == spec_topic_assignment(assignments@, topic@),
            forall|m: int|
                0 <= m < k ==> !((#[trigger] of_topic@[m]).spec_vgroup_id() == vgroup_id
                    && of_topic@[m].spec_admits(offset)),
        decreases of_topic.len() - k,
    {
        if of_topic[k].vgroup_id() == vgroup_id && of_topic[k].admits(offset) {
            return true;
        }
        k += 1;
    }
    false
}

} // verus!
