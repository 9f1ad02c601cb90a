//! The coalescing broadcaster: a single cell that holds the latest published
//! track point and a version counter, read through independent cursors.
//!
//! A reader never queues: whenever it looks, it is told the latest point if
//! one was published since it last looked, and nothing otherwise. Points
//! published in between are skipped for that reader, and no reader changes
//! what another one sees.

use vstd::prelude::*;

use crate::coordinate::{Coordinate, QUIET_NAN_BITS};
use crate::point::{PointView, TrackPoint};

verus! {

/// What the cell holds: a value and the number of points published so far.
pub struct CellView {
    pub value: PointView,
    pub version: nat,
}

/// The value of a cell before anything is published: an empty identifier and
/// not-a-number coordinates.
pub open spec fn sentinel() -> PointView {
    PointView {
        id: Seq::<char>::empty(),
        latitude: Coordinate { bits: QUIET_NAN_BITS },
        longitude: Coordinate { bits: QUIET_NAN_BITS },
    }
}

/// The cell before anything is published.
pub open spec fn initial() -> CellView {
    CellView { value: sentinel(), version: 0 }
}

/// The cell after `point` is published to `cell`.
pub open spec fn published(cell: CellView, point: PointView) -> CellView {
    CellView { value: point, version: cell.version + 1 }
}

/// The cell after the points of `points` are published to `cell` in order.
pub open spec fn publish_all(cell: CellView, points: Seq<PointView>) -> CellView
    decreases points.len(),
{
    if points.len() == 0 {
        cell
    } else {
        published(publish_all(cell, points.drop_last()), points.last())
    }
}

/// What a reader that has seen version `seen` is told when it looks at
/// `cell`: the current value if the cell has moved on, nothing otherwise.
pub open spec fn observed(cell: CellView, seen: nat) -> Option<PointView> {
    if cell.version > seen {
        Some(cell.value)
    } else {
        None
    }
}

/// The version that a reader that has seen version `seen` has seen after it
/// has looked at `cell`.
pub open spec fn advanced(cell: CellView, seen: nat) -> nat {
    if cell.version > seen {
        cell.version
    } else {
        seen
    }
}

/// The latest published track point together with a version counter that
/// grows by one with every publication.
pub struct LatestValue {
    value: Option<TrackPoint>,
    version: u64,
}

/// A reader's position: the last version of the cell that it has observed.
#[derive(Debug)]
pub struct Cursor {
    seen: u64,
}

impl Cursor {
    /// The last version that this reader has observed.
    pub closed spec fn seen(&self) -> nat {
        self.seen as nat
    }

    /// The last version that this reader has observed.
    pub fn last_seen(&self) -> (version: u64)
        ensures
            version == self.seen(),
    {
        self.seen
    }
}

impl View for LatestValue {
    type V = CellView;

    closed spec fn view(&self) -> CellView {
        CellView {
            value: match self.value {
                Some(point) => point@,
                None => sentinel(),
            },
            version: self.version as nat,
        }
    }
}

impl LatestValue {
    #[verifier::type_invariant]
    spec fn holds_point_once_published(self) -> bool {
        self.value is None <==> self.version == 0
    }

    /// A cell to which nothing has been published yet.
    pub fn new() -> (cell: LatestValue)
        ensures
            cell@ == initial(),
    {
        LatestValue { value: None, version: 0 }
    }

    /// The number of points published so far.
    pub fn version(&self) -> (version: u64)
        ensures
            version == self@.version,
    {
        self.version
    }

    /// The latest published point, if any point has been published.
    pub fn latest(&self) -> (point: Option<TrackPoint>)
        ensures
            point is Some <==> self@.version > 0,
            point matches Some(p) ==> p@ == self@.value,
    {
        proof {
            use_type_invariant(self);
        }
        match &self.value {
            Some(point) => Some(point.clone()),
            None => None,
        }
    }

    /// Replaces the value of the cell by `point` and moves the version on by
    /// one. The version counter must not be exhausted.
    pub fn publish(&mut self, point: TrackPoint)
        requires
            old(self)@.version < u64::MAX,
        ensures
            final(self)@ == published(old(self)@, point@),
    {
        let next: u64 = self.version + 1;
        *self = LatestValue { value: Some(point), version: next };
    }

    /// A cursor that has seen everything published so far, so that it will
    /// only ever be told of later publications.
    pub fn subscribe(&self) -> (cursor: Cursor)
        ensures
            cursor.seen() == self@.version,
    {
        Cursor { seen: self.version }
    }

    /// The step on which waiting for a change rests: if a point was
    /// published since the cursor last saw the cell, returns the current
    /// point and moves the cursor to the current version; otherwise returns
    /// nothing and leaves the cursor alone, and the caller suspends until the
    /// next publication before it asks again.
    pub fn poll_change(&self, cursor: &mut Cursor) -> (change: Option<TrackPoint>)
        ensures
            match change {
                Some(point) => observed(self@, old(cursor).seen()) == Some(point@),
                None => observed(self@, old(cursor).seen()) is None,
            },
            final(cursor).seen() == advanced(self@, old(cursor).seen()),
    {
        proof {
            use_type_invariant(self);
        }
        if cursor.seen < self.version {
            cursor.seen = self.version;
            match &self.value {
                Some(point) => Some(point.clone()),
                None => None,
            }
        } else {
            None
        }
    }
}

/// One thing that happens to a cell and one of its readers: the writer
/// publishes a point, or the reader looks at the cell.
pub enum Step {
    Publish(PointView),
    Poll,
}

/// A cell together with one reader of it: the reader's cursor and the points
/// that the reader has been told of so far, oldest first.
pub struct Progress {
    pub cell: CellView,
    pub seen: nat,
    pub deliveries: Seq<PointView>,
}

/// A reader that has just subscribed to `cell`.
pub open spec fn subscribed(cell: CellView) -> Progress {
    Progress { cell, seen: cell.version, deliveries: Seq::<PointView>::empty() }
}

/// The cell and the reader after one step.
pub open spec fn after_step(progress: Progress, step: Step) -> Progress {
    match step {
        Step::Publish(point) => Progress { cell: published(progress.cell, point), ..progress },
        Step::Poll => Progress {
            cell: progress.cell,
            seen: advanced(progress.cell, progress.seen),
            deliveries: match observed(progress.cell, progress.seen) {
                Some(point) => progress.deliveries.push(point),
                None => progress.deliveries,
            },
        },
    }
}

/// The cell and the reader after the steps of `steps`, in order.
pub open spec fn after_steps(progress: Progress, steps: Seq<Step>) -> Progress
    decreases steps.len(),
{
    if steps.len() == 0 {
        progress
    } else {
        after_step(after_steps(progress, steps.drop_last()), steps.last())
    }
}

/// The points that the writer publishes in the course of `steps`, in order.
pub open spec fn publications(steps: Seq<Step>) -> Seq<PointView>
    decreases steps.len(),
{
    if steps.len() == 0 {
        Seq::<PointView>::empty()
    } else {
        match steps.last() {
            Step::Publish(point) => publications(steps.drop_last()).push(point),
            Step::Poll => publications(steps.drop_last()),
        }
    }
}

/// Publishing moves the version on by the number of points published, and
/// leaves the last of them in the cell.
pub proof fn lemma_publish_all(cell: CellView, points: Seq<PointView>)
    ensures
        publish_all(cell, points).version == cell.version + points.len(),
        points.len() > 0 ==> publish_all(cell, points).value == points.last(),
        points.len() == 0 ==> publish_all(cell, points) == cell,
    decreases points.len(),
{
    if points.len() > 0 {
        lemma_publish_all(cell, points.drop_last());
    }
}

/// Coalescing: however many points were published while a reader was not
/// looking, its next look returns the last of them and no earlier one, and
/// a further look returns nothing until something else is published.
pub proof fn lemma_coalescing(cell: CellView, seen: nat, points: Seq<PointView>)
    requires
        seen <= cell.version,
        points.len() > 0,
    ensures
        observed(publish_all(cell, points), seen) == Some(points.last()),
        advanced(publish_all(cell, points), seen) == cell.version + points.len(),
        observed(publish_all(cell, points), advanced(publish_all(cell, points), seen)) is None,
{
    lemma_publish_all(cell, points);
}

/// What holds of a reader at every moment after it has subscribed to `cell`:
/// the cell is what the writer alone made of it; the reader is never ahead of
/// the cell; it has been told of no more points than were published since it
/// subscribed; every point it was told of is one of those; and the last
/// point it was told of is the one that was current at the version it has
/// seen.
pub proof fn lemma_reader_progress(cell: CellView, steps: Seq<Step>)
    ensures
        ({
            let now = after_steps(subscribed(cell), steps);
            let sent = publications(steps);
            &&& now.cell == publish_all(cell, sent)
            &&& cell.version <= now.seen <= now.cell.version
            &&& now.deliveries.len() <= now.seen - cell.version
            &&& now.seen > cell.version ==> now.deliveries.len() > 0 && now.deliveries.last()
                == sent[now.seen - cell.version - 1]
            &&& now.seen == cell.version ==> now.deliveries.len() == 0
            &&& forall|i: int|
                0 <= i < now.deliveries.len() ==> sent.contains(#[trigger] now.deliveries[i])
        }),
    decreases steps.len(),
{
    let sent = publications(steps);
    lemma_publish_all(cell, sent);
    if steps.len() > 0 {
        let earlier = steps.drop_last();
        let before = after_steps(subscribed(cell), earlier);
        let sent_before = publications(earlier);
        lemma_reader_progress(cell, earlier);
        lemma_publish_all(cell, sent_before);
        let now = after_steps(subscribed(cell), steps);
        match steps.last() {
            Step::Publish(point) => {
                assert(sent.drop_last() =~= sent_before);
                assert forall|i: int| 0 <= i < now.deliveries.len() implies sent.contains(
                    #[trigger] now.deliveries[i],
                ) by {
                    let k = choose|k: int|
                        0 <= k < sent_before.len() && sent_before[k] == before.deliveries[i];
                    assert(sent[k] == now.deliveries[i]);
                }
            },
            Step::Poll => {
                if before.cell.version > before.seen {
                    assert(sent[sent.len() - 1] == before.cell.value);
                    assert forall|i: int| 0 <= i < now.deliveries.len() implies sent.contains(
                        #[trigger] now.deliveries[i],
                    ) by {
                        if i < before.deliveries.len() {
                            assert(now.deliveries[i] == before.deliveries[i]);
                        }
                    }
                }
            },
        }
    }
}

/// Catching up: once at least one point has been published since a reader
/// subscribed, a look at the cell leaves the reader with the latest point as
/// the last one it was told of, whenever it looked before.
pub proof fn lemma_catch_up(cell: CellView, steps: Seq<Step>)
    requires
        publications(steps).len() > 0,
    ensures
        ({
            let caught_up = after_step(after_steps(subscribed(cell), steps), Step::Poll);
            &&& caught_up.seen == caught_up.cell.version
            &&& caught_up.deliveries.len() > 0
            &&& caught_up.deliveries.last() == publications(steps).last()
            &&& caught_up.cell.value == publications(steps).last()
        }),
{
    let sent = publications(steps);
    lemma_reader_progress(cell, steps);
    lemma_publish_all(cell, sent);
}

/// Isolation: two readers of one cell, whenever each subscribed and however
/// differently they timed their looks, end up with the same last point once
/// each has caught up: the latest one. Neither has any effect on what the
/// other is told.
pub proof fn lemma_isolation(
    cell_one: CellView,
    first: Seq<Step>,
    cell_other: CellView,
    second: Seq<Step>,
)
    requires
        publications(first).len() > 0,
        publications(second).len() > 0,
        after_steps(subscribed(cell_one), first).cell == after_steps(
            subscribed(cell_other),
            second,
        ).cell,
    ensures
        ({
            let one = after_step(after_steps(subscribed(cell_one), first), Step::Poll);
            let other = after_step(after_steps(subscribed(cell_other), second), Step::Poll);
            &&& one.cell == other.cell
            &&& one.deliveries.len() > 0
            &&& other.deliveries.len() > 0
            &&& one.deliveries.last() == one.cell.value
            &&& other.deliveries.last() == one.cell.value
        }),
{
    lemma_catch_up(cell_one, first);
    lemma_catch_up(cell_other, second);
}

/// No replay: a reader is only ever told of points published after it
/// subscribed. A look before any such publication returns nothing, and each
/// point it is told of later is one of the later publications.
pub proof fn lemma_no_replay(cell: CellView, steps: Seq<Step>)
    ensures
        observed(cell, subscribed(cell).seen) is None,
        forall|i: int|
            #![trigger after_steps(subscribed(cell), steps).deliveries[i]]
            0 <= i < after_steps(subscribed(cell), steps).deliveries.len() ==> publications(
                steps,
            ).contains(after_steps(subscribed(cell), steps).deliveries[i]),
        after_steps(subscribed(cell), steps).deliveries.len() <= publications(steps).len(),
{
    lemma_reader_progress(cell, steps);
    lemma_publish_all(cell, publications(steps));
}

/// The sentinel is never delivered: whatever finite points are published to
/// a fresh cell, no reader is ever told of the cell's initial value.
pub proof fn lemma_sentinel_never_delivered(points: Seq<PointView>, seen: nat)
    requires
        forall|i: int| 0 <= i < points.len() ==> (#[trigger] points[i]).finite(),
    ensures
        observed(publish_all(initial(), points), seen) != Some(sentinel()),
{
    lemma_publish_all(initial(), points);
    assert(QUIET_NAN_BITS & crate::coordinate::EXPONENT_MASK == crate::coordinate::EXPONENT_MASK)
        by (bit_vector);
    if points.len() > 0 {
        assert(points.last().finite());
    }
}

} // verus!
