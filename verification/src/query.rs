//! The nearest-point query.
//!
//! Selection, move pick-up, segment endpoints and the on-screen highlight all
//! ask the same question: which stored point, if any, is the closest one
//! within a given radius of a position?  This module defines the answer and
//! computes it.

use vstd::prelude::*;
use crate::point::{distance_squared, lemma_square_bounds, within, Point};

verus! {

/// Whether index `i` is the answer of a query at `query` with radius
/// `max_dist` over `points`:
/// the point at `i` is within the radius, no point within the radius is
/// strictly closer, and no earlier point is equally close.
pub open spec fn is_nearest(points: Seq<Point>, query: Point, max_dist: nat, i: int) -> bool {
    &&& 0 <= i < points.len()
    &&& within(points[i], query, max_dist)
    &&& forall|j: int|
        0 <= j < points.len() && within(#[trigger] points[j], query, max_dist)
            ==> distance_squared(points[i], query) <= distance_squared(points[j], query)
    &&& forall|j: int|
        0 <= j < i ==> distance_squared(#[trigger] points[j], query) != distance_squared(
            points[i],
            query,
        )
}

/// Whether no point of `points` is within `max_dist` of `query`.
pub open spec fn none_within(points: Seq<Point>, query: Point, max_dist: nat) -> bool {
    forall|j: int| 0 <= j < points.len() ==> !within(#[trigger] points[j], query, max_dist)
}

/// Whether `found` is what a query at `query` with radius `max_dist` over
/// `points` reports: the index that answers it, or `None` where no point is
/// within the radius.
pub open spec fn answers(
    points: Seq<Point>,
    query: Point,
    max_dist: nat,
    found: Option<usize>,
) -> bool {
    match found {
        Some(i) => is_nearest(points, query, max_dist, i as int),
        None => none_within(points, query, max_dist),
    }
}

/// The answer of the query: the index of the nearest point within the radius,
/// the lowest such index where several are equally near, or `None` where no
/// point is within the radius.
pub open spec fn nearest(points: Seq<Point>, query: Point, max_dist: nat) -> Option<int> {
    if exists|i: int| is_nearest(points, query, max_dist, i) {
        Some(choose|i: int| is_nearest(points, query, max_dist, i))
    } else {
        None
    }
}

/// At most one index answers a query.
pub proof fn lemma_is_nearest_unique(
    points: Seq<Point>,
    query: Point,
    max_dist: nat,
    i: int,
    j: int,
)
    requires
        is_nearest(points, query, max_dist, i),
        is_nearest(points, query, max_dist, j),
    ensures
        i == j,
{
    let di = distance_squared(points[i], query);
    let dj = distance_squared(points[j], query);
    assert(di <= dj);
    assert(dj <= di);
}

/// Whether index `i` answers the query over the first `n` points alone.
spec fn is_nearest_of_first(
    points: Seq<Point>,
    query: Point,
    max_dist: nat,
    n: int,
    i: int,
) -> bool {
    &&& 0 <= i < n
    &&& within(points[i], query, max_dist)
    &&& forall|j: int|
        0 <= j < n && within(#[trigger] points[j], query, max_dist) ==> distance_squared(
            points[i],
            query,
        ) <= distance_squared(points[j], query)
    &&& forall|j: int|
        0 <= j < i ==> distance_squared(#[trigger] points[j], query) != distance_squared(
            points[i],
            query,
        )
}

/// Whether none of the first `n` points is within `max_dist` of `query`.
spec fn none_of_first_within(points: Seq<Point>, query: Point, max_dist: nat, n: int) -> bool {
    forall|j: int| 0 <= j < n ==> !within(#[trigger] points[j], query, max_dist)
}

/// Where one of the first `n` points is within the radius, some index
/// answers the query over them.
proof fn lemma_is_nearest_exists(points: Seq<Point>, query: Point, max_dist: nat, n: int) -> (i:
    int)
    requires
        0 <= n <= points.len(),
        !none_of_first_within(points, query, max_dist, n),
    ensures
        is_nearest_of_first(points, query, max_dist, n, i),
    decreases n,
{
    let last = points[n - 1];
    if none_of_first_within(points, query, max_dist, n - 1) {
        n - 1
    } else {
        let b = lemma_is_nearest_exists(points, query, max_dist, n - 1);
        if within(last, query, max_dist) && distance_squared(last, query) < distance_squared(
            points[b],
            query,
        ) {
            n - 1
        } else {
            b
        }
    }
}

/// What `nearest` returns, case by case: `Some(i)` exactly for the one index
/// that answers the query, and `None` exactly where no point is within the
/// radius.
pub proof fn lemma_nearest_characterization(points: Seq<Point>, query: Point, max_dist: nat)
    ensures
        forall|i: int|
            nearest(points, query, max_dist) == Some(i) <==> is_nearest(
                points,
                query,
                max_dist,
                i,
            ),
        nearest(points, query, max_dist) is None <==> none_within(points, query, max_dist),
{
    assert forall|i: int| is_nearest(points, query, max_dist, i) implies nearest(
        points,
        query,
        max_dist,
    ) == Some(i) by {
        let c = choose|c: int| is_nearest(points, query, max_dist, c);
        lemma_is_nearest_unique(points, query, max_dist, i, c);
    }
    if !none_within(points, query, max_dist) {
        let i = lemma_is_nearest_exists(points, query, max_dist, points.len() as int);
        assert(is_nearest(points, query, max_dist, i));
    } else if nearest(points, query, max_dist) is Some {
        let c = choose|c: int| is_nearest(points, query, max_dist, c);
        assert(within(points[c], query, max_dist));
    }
}

/// A query has one answer: two reports for the same points, position and
/// radius are the same report, and it is the one that `nearest` names.
pub proof fn lemma_answer_is_unique(
    points: Seq<Point>,
    query: Point,
    max_dist: nat,
    first: Option<usize>,
    second: Option<usize>,
)
    requires
        answers(points, query, max_dist, first),
        answers(points, query, max_dist, second),
    ensures
        first == second,
        match first {
            Some(i) => nearest(points, query, max_dist) == Some(i as int),
            None => nearest(points, query, max_dist) is None,
        },
{
    lemma_nearest_characterization(points, query, max_dist);
    match (first, second) {
        (Some(i), Some(j)) => {
            lemma_is_nearest_unique(points, query, max_dist, i as int, j as int);
        },
        (Some(i), None) => {
            assert(within(points[i as int], query, max_dist));
        },
        (None, Some(j)) => {
            assert(within(points[j as int], query, max_dist));
        },
        (None, None) => {},
    }
}

/// Of two points at the same distance from the query position, the later
/// one is never the answer.  Where the two are the only points and within
/// the radius, the answer is therefore the first.
pub proof fn lemma_tie_goes_to_lower_index(
    points: Seq<Point>,
    query: Point,
    max_dist: nat,
    i: int,
    j: int,
)
    requires
        0 <= i < j < points.len(),
        distance_squared(points[i], query) == distance_squared(points[j], query),
    ensures
        !is_nearest(points, query, max_dist, j),
        nearest(points, query, max_dist) != Some(j),
        points.len() == 2 && within(points[i], query, max_dist) ==> nearest(
            points,
            query,
            max_dist,
        ) == Some(i),
{
    lemma_nearest_characterization(points, query, max_dist);
    if points.len() == 2 && within(points[i], query, max_dist) {
        assert(is_nearest(points, query, max_dist, 0));
    }
}

/// The radius is a closed boundary.  A point whose distance is at most the
/// radius, the radius itself included, makes the query find something; a
/// point farther away than the radius is never the answer.  A lone point is
/// therefore the answer exactly when its distance is at most the radius.
pub proof fn lemma_radius_is_inclusive(points: Seq<Point>, query: Point, max_dist: nat, i: int)
    requires
        0 <= i < points.len(),
    ensures
        distance_squared(points[i], query) <= max_dist * max_dist ==> nearest(
            points,
            query,
            max_dist,
        ) is Some,
        distance_squared(points[i], query) > max_dist * max_dist ==> nearest(
            points,
            query,
            max_dist,
        ) != Some(i),
        points.len() == 1 ==> (nearest(points, query, max_dist) == Some(0int) <==> distance_squared(
            points[0],
            query,
        ) <= max_dist * max_dist),
{
    lemma_nearest_characterization(points, query, max_dist);
    if distance_squared(points[i], query) <= max_dist * max_dist {
        assert(within(points[i], query, max_dist));
    }
    if points.len() == 1 {
        if within(points[0], query, max_dist) {
            assert(is_nearest(points, query, max_dist, 0));
        }
    }
}

/// The answer of a query is the index of a point within the radius from
/// which no point is nearer.
pub proof fn lemma_nearest_is_minimal(points: Seq<Point>, query: Point, max_dist: nat, j: int)
    requires
        0 <= j < points.len(),
    ensures
        nearest(points, query, max_dist) matches Some(i) ==> {
            &&& 0 <= i < points.len()
            &&& distance_squared(points[i], query) <= max_dist * max_dist
            &&& distance_squared(points[i], query) <= distance_squared(points[j], query)
        },
{
    lemma_nearest_characterization(points, query, max_dist);
    if let Some(i) = nearest(points, query, max_dist) {
        assert(is_nearest(points, query, max_dist, i));
        if !within(points[j], query, max_dist) {
            assert(distance_squared(points[j], query) > max_dist * max_dist);
        }
    }
}

/// Finds the stored point nearest to `query` among those within `max_dist`
/// of it.
///
/// Returns the index of that point; of several equally near points the one
/// with the lowest index; `None` where no point is within `max_dist`, which
/// includes the empty sequence.  A point at exactly `max_dist` is within it.
pub fn find_nearest(points: &Vec<Point>, query: Point, max_dist: u32) -> (found: Option<usize>)
    ensures
        answers(points@, query, max_dist as nat, found),
        match found {
            Some(i) => nearest(points@, query, max_dist as nat) == Some(i as int),
            None => nearest(points@, query, max_dist as nat) is None,
        },
{
    let radius: u64 = max_dist as u64;
    proof {
        lemma_square_bounds(radius as int, 0xFFFF_FFFF);
    }
    let limit: u128 = (radius * radius) as u128;
    let mut best: Option<usize> = None;
    let mut best_distance: u128 = 0;
    let mut i: usize = 0;
    while i < points.len()
        invariant
            i <= points.len(),
            limit == max_dist * max_dist,
            match best {
                Some(b) => {
                    &&& best_distance == distance_squared(points@[b as int], query)
                    &&& is_nearest_of_first(points@, query, max_dist as nat, i as int, b as int)
                },
                None => none_of_first_within(points@, query, max_dist as nat, i as int),
            },
        decreases points.len() - i,
    {
        let d: u128 = points[i].distance_squared_to(&query);
        let closer: bool = d <= limit && match best {
            Some(_) => d < best_distance,
            None => true,
        };
        if closer {
            best = Some(i);
            best_distance = d;
        }
        i += 1;
    }
    proof {
        lemma_nearest_characterization(points@, query, max_dist as nat);
    }
    best
}

} // verus!
