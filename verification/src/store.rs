//! The drawing: points, and the segments that connect them.

use vstd::prelude::*;
use crate::point::Point;
use crate::query::{answers, find_nearest};

verus! {

/// The drawing as a mathematical value.
pub struct StoreView {
    /// The points, in the order in which they were added.
    pub points: Seq<Point>,
    /// The segments, each a pair of indices into `points`, in the order in
    /// which they were added.
    pub segments: Seq<(usize, usize)>,
}

impl StoreView {
    /// Whether both ends of every segment are indices of stored points.
    pub open spec fn wf(self) -> bool {
        forall|k: int|
            0 <= k < self.segments.len() ==> (#[trigger] self.segments[k]).0 < self.points.len()
                && self.segments[k].1 < self.points.len()
    }

    /// The two positions that segment `k` connects at present.
    pub open spec fn endpoints(self, k: int) -> (Point, Point) {
        (self.points[self.segments[k].0 as int], self.points[self.segments[k].1 as int])
    }
}

/// The points and segments of a drawing.
///
/// A point is known by its index, which it keeps for good: points are only
/// ever appended or moved.  A segment names its two ends by index, so it
/// follows them when they move.  Every segment of a store connects points of
/// that store.
pub struct GeometryStore {
    points: Vec<Point>,
    segments: Vec<(usize, usize)>,
}

impl View for GeometryStore {
    type V = StoreView;

    closed spec fn view(&self) -> StoreView {
        StoreView { points: self.points@, segments: self.segments@ }
    }
}

impl GeometryStore {
    #[verifier::type_invariant]
    spec fn segments_refer_to_points(self) -> bool {
        self@.wf()
    }

    /// Makes an empty drawing.
    pub fn new() -> (store: GeometryStore)
        ensures
            store@.points == Seq::<Point>::empty(),
            store@.segments == Seq::<(usize, usize)>::empty(),
            store@.wf(),
    {
        GeometryStore { points: Vec::new(), segments: Vec::new() }
    }

    /// Appends a point at `pos` and returns its index.
    pub fn add_point(&mut self, pos: Point) -> (index: usize)
        ensures
            index == old(self)@.points.len(),
            final(self)@.points == old(self)@.points.push(pos),
            final(self)@.segments == old(self)@.segments,
            final(self)@.wf(),
    {
        // The store is taken apart, extended and put back whole, so that it is
        // well formed wherever the push could leave it.
        let mut taken = GeometryStore::new();
        core::mem::swap(self, &mut taken);
        proof {
            use_type_invariant(&taken);
        }
        let GeometryStore { mut points, segments } = taken;
        let index: usize = points.len();
        points.push(pos);
        assert((StoreView { points: points@, segments: segments@ }).wf()) by {
            assert(segments@ == taken@.segments);
        }
        *self = GeometryStore { points, segments };
        index
    }

    /// Moves point `index` to `pos`.  Nothing else changes; segments that end
    /// at the point follow it.
    pub fn set_point(&mut self, index: usize, pos: Point)
        requires
            index < old(self)@.points.len(),
        ensures
            final(self)@.points == old(self)@.points.update(index as int, pos),
            final(self)@.segments == old(self)@.segments,
            final(self)@.wf(),
    {
        proof {
            use_type_invariant(&*self);
            assert(self.segments@ == self@.segments);
        }
        self.points[index] = pos;
    }

    /// Appends the segment from point `a` to point `b`.  The two may be the
    /// same point.
    pub fn add_segment(&mut self, a: usize, b: usize)
        requires
            a < old(self)@.points.len(),
            b < old(self)@.points.len(),
        ensures
            final(self)@.points == old(self)@.points,
            final(self)@.segments == old(self)@.segments.push((a, b)),
            final(self)@.wf(),
    {
        let mut taken = GeometryStore::new();
        core::mem::swap(self, &mut taken);
        proof {
            use_type_invariant(&taken);
        }
        let GeometryStore { points, mut segments } = taken;
        segments.push((a, b));
        assert((StoreView { points: points@, segments: segments@ }).wf()) by {
            assert(segments@ == taken@.segments.push((a, b)));
        }
        *self = GeometryStore { points, segments };
    }

    /// The number of points.
    pub fn point_count(&self) -> (n: usize)
        ensures
            n == self@.points.len(),
    {
        self.points.len()
    }

    /// The number of segments.
    pub fn segment_count(&self) -> (n: usize)
        ensures
            n == self@.segments.len(),
    {
        self.segments.len()
    }

    /// The position of point `index`.
    pub fn point(&self, index: usize) -> (pos: Point)
        requires
            index < self@.points.len(),
        ensures
            pos == self@.points[index as int],
    {
        self.points[index]
    }

    /// The indices of the two ends of segment `k`, both of them indices of
    /// stored points.
    pub fn segment(&self, k: usize) -> (ends: (usize, usize))
        requires
            k < self@.segments.len(),
        ensures
            ends == self@.segments[k as int],
            ends.0 < self@.points.len(),
            ends.1 < self@.points.len(),
    {
        proof {
            use_type_invariant(self);
        }
        self.segments[k]
    }

    /// The positions of the two ends of segment `k` as they are now.
    pub fn segment_endpoints(&self, k: usize) -> (ends: (Point, Point))
        requires
            k < self@.segments.len(),
        ensures
            ends == self@.endpoints(k as int),
    {
        let (a, b) = self.segment(k);
        (self.points[a], self.points[b])
    }

    /// Finds the stored point nearest to `query` among those within
    /// `max_dist` of it; the lowest index wins a tie.
    pub fn find_nearest(&self, query: Point, max_dist: u32) -> (found: Option<usize>)
        ensures
            answers(self@.points, query, max_dist as nat, found),
    {
        find_nearest(&self.points, query, max_dist)
    }
}

} // verus!
