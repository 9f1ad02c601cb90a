//! The history store: a bounded, insertion-ordered buffer of the most recent
//! track points.

use std::collections::VecDeque;
use vstd::prelude::*;

use crate::point::{PointView, TrackPoint};

verus! {

/// The capacity with which the history store is usually deployed.
pub const POINTS_HISTORY_LIMIT: usize = 80000;

/// The newest `limit` items of `items`, in the order they stand in; all of
/// them where there are no more than `limit`.
pub open spec fn newest<A>(items: Seq<A>, limit: nat) -> Seq<A> {
    if items.len() <= limit {
        items
    } else {
        items.subrange(items.len() - limit, items.len() as int)
    }
}

/// What a sequence of track points says, point by point.
pub open spec fn point_views(points: Seq<TrackPoint>) -> Seq<PointView> {
    points.map_values(|p: TrackPoint| p@)
}

/// What a store holding `store` under the limit `limit` holds after the
/// items of `points` have been appended to it one by one, oldest first.
pub open spec fn append_all<A>(store: Seq<A>, points: Seq<A>, limit: nat) -> Seq<A>
    decreases points.len(),
{
    if points.len() == 0 {
        store
    } else {
        newest(append_all(store, points.drop_last(), limit).push(points.last()), limit)
    }
}

/// A bounded first-in, first-out buffer of track points, oldest at the head
/// and newest at the tail. It never holds more points than its capacity.
pub struct HistoryBuffer {
    points: VecDeque<TrackPoint>,
    capacity: usize,
}

impl View for HistoryBuffer {
    type V = Seq<PointView>;

    closed spec fn view(&self) -> Seq<PointView> {
        point_views(self.points@)
    }
}

impl HistoryBuffer {
    #[verifier::type_invariant]
    spec fn within_capacity(self) -> bool {
        self.points@.len() <= self.capacity
    }

    /// The largest number of points that the buffer retains.
    pub closed spec fn limit(&self) -> nat {
        self.capacity as nat
    }

    /// An empty buffer that retains at most `capacity` points.
    pub fn new(capacity: usize) -> (history: HistoryBuffer)
        ensures
            history@ == Seq::<PointView>::empty(),
            history.limit() == capacity,
    {
        HistoryBuffer { points: VecDeque::new(), capacity }
    }

    /// The largest number of points that the buffer retains.
    pub fn capacity(&self) -> (capacity: usize)
        ensures
            capacity == self.limit(),
    {
        self.capacity
    }

    /// The number of points held, which never exceeds the capacity.
    pub fn len(&self) -> (len: usize)
        ensures
            len == self@.len(),
            len <= self.limit(),
    {
        proof {
            use_type_invariant(self);
        }
        self.points.len()
    }

    /// Whether the buffer holds no point.
    pub fn is_empty(&self) -> (empty: bool)
        ensures
            empty == (self@.len() == 0),
    {
        self.points.len() == 0
    }

    /// Inserts `point` at the tail, then evicts from the head until the
    /// buffer is within its capacity again: the buffer afterwards holds the
    /// newest `capacity` of the points it held before followed by `point`.
    pub fn append(&mut self, point: TrackPoint)
        ensures
            final(self)@ == newest(old(self)@.push(point@), old(self).limit()),
            final(self).limit() == old(self).limit(),
    {
        proof {
            use_type_invariant(&*self);
        }
        let capacity: usize = self.capacity;
        let mut points: VecDeque<TrackPoint> = VecDeque::new();
        std::mem::swap(&mut points, &mut self.points);
        let ghost before = points@;
        points.push_back(point);
        let ghost pushed = points@;
        assert(point_views(pushed) =~= point_views(before).push(point@));
        while points.len() > capacity
            invariant
                pushed.len() <= capacity + 1,
                points@.len() <= pushed.len(),
                points@.len() == pushed.len() || points@.len() >= capacity,
                points@ == pushed.subrange(pushed.len() - points@.len(), pushed.len() as int),
            decreases points@.len(),
        {
            points.pop_front();
        }
        assert(point_views(points@) =~= newest(point_views(pushed), capacity as nat));
        self.points = points;
    }

    /// An independent copy of the points held, oldest first.
    pub fn snapshot(&self) -> (copy: Vec<TrackPoint>)
        ensures
            point_views(copy@) == self@,
    {
        let mut copy: Vec<TrackPoint> = Vec::new();
        let mut i: usize = 0;
        while i < self.points.len()
            invariant
                i <= self.points@.len(),
                copy@.len() == i,
                forall|j: int| 0 <= j < i ==> (#[trigger] copy@[j])@ == self.points@[j]@,
            decreases self.points@.len() - i,
        {
            copy.push(self.points[i].clone());
            i = i + 1;
        }
        assert(point_views(copy@) =~= point_views(self.points@));
        copy
    }
}

/// Appending to a store that is within its limit keeps the newest `limit`
/// of everything it held and was given, in the order of arrival.
pub proof fn lemma_append_all_keeps_newest<A>(store: Seq<A>, points: Seq<A>, limit: nat)
    requires
        store.len() <= limit,
    ensures
        append_all(store, points, limit) == newest(store + points, limit),
    decreases points.len(),
{
    if points.len() == 0 {
        assert(store + points =~= store);
    } else {
        let earlier = points.drop_last();
        lemma_append_all_keeps_newest(store, earlier, limit);
        assert((store + earlier).push(points.last()) =~= store + points);
        assert(newest(newest(store + earlier, limit).push(points.last()), limit) =~= newest(
            store + points,
            limit,
        ));
    }
}

/// Bounded first-in, first-out: after `points` have been appended one by
/// one to an empty store of limit `limit`, the store holds as many points as
/// were appended or `limit` of them, whichever is less, and they are the last
/// ones appended, in the order in which they were appended.
pub proof fn lemma_bounded_fifo<A>(points: Seq<A>, limit: nat)
    ensures
        ({
            let held = append_all(Seq::<A>::empty(), points, limit);
            &&& held.len() == if points.len() <= limit {
                points.len()
            } else {
                limit
            }
            &&& forall|i: int|
                0 <= i < held.len() ==> held[i] == points[points.len() - held.len() + i]
        }),
{
    lemma_append_all_keeps_newest(Seq::<A>::empty(), points, limit);
    assert(Seq::<A>::empty() + points =~= points);
}

} // verus!
