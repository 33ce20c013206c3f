//! Axis extents: inferred from the data, pinned by the caller, or a
//! fallback where there is neither.

use vstd::prelude::*;
use crate::point::Point;

verus! {

/// The range of each axis, in thousandths.
#[derive(Clone, Copy, Debug, PartialEq, Eq, Structural)]
pub struct Extents {
    pub x_min: i64,
    pub x_max: i64,
    pub y_min: i64,
    pub y_max: i64,
}

/// The x coordinates of a series, in buffer order.
pub open spec fn xs(points: Seq<Point>) -> Seq<int> {
    Seq::new(points.len(), |i: int| points[i].x as int)
}

/// The y coordinates of a series, in buffer order.
pub open spec fn ys(points: Seq<Point>) -> Seq<int> {
    Seq::new(points.len(), |i: int| points[i].y as int)
}

/// Whether `m` occurs in `s` and nothing in `s` is above it.
pub open spec fn is_maximum(s: Seq<int>, m: int) -> bool {
    &&& exists|i: int| 0 <= i < s.len() && s[i] == m
    &&& forall|i: int| 0 <= i < s.len() ==> s[i] <= m
}

/// Whether `m` occurs in `s` and nothing in `s` is below it.
pub open spec fn is_minimum(s: Seq<int>, m: int) -> bool {
    &&& exists|i: int| 0 <= i < s.len() && s[i] == m
    &&& forall|i: int| 0 <= i < s.len() ==> m <= s[i]
}

/// The extents of a non-empty series: the least and greatest coordinate on
/// each axis.
pub open spec fn data_extents(points: Seq<Point>) -> Extents {
    Extents {
        x_min: xs(points).min() as i64,
        x_max: xs(points).max() as i64,
        y_min: ys(points).min() as i64,
        y_max: ys(points).max() as i64,
    }
}

/// The extents that a series alone determines: none for an empty one.
pub open spec fn inferred_extents(points: Seq<Point>) -> Option<Extents> {
    if points.len() == 0 {
        None
    } else {
        Some(data_extents(points))
    }
}

/// A maximum of a sequence is the maximum.
pub proof fn lemma_maximum_is_max(s: Seq<int>, m: int)
    requires
        is_maximum(s, m),
    ensures
        s.max() == m,
{
    s.max_ensures();
    let i = choose|i: int| 0 <= i < s.len() && s[i] == m;
    assert(s[i] <= s.max());
    assert(s.contains(s.max()));
}

/// A minimum of a sequence is the minimum.
pub proof fn lemma_minimum_is_min(s: Seq<int>, m: int)
    requires
        is_minimum(s, m),
    ensures
        s.min() == m,
{
    s.min_ensures();
    let i = choose|i: int| 0 <= i < s.len() && s[i] == m;
    assert(s.min() <= s[i]);
    assert(s.contains(s.min()));
}

/// Scans the series once for the least and greatest coordinate on each
/// axis. An empty series has no extents.
pub fn infer_extents(points: &Vec<Point>) -> (r: Option<Extents>)
    ensures
        r == inferred_extents(points@),
        r is Some <==> points.len() > 0,
        r matches Some(e) ==> {
            &&& is_minimum(xs(points@), e.x_min as int)
            &&& is_maximum(xs(points@), e.x_max as int)
            &&& is_minimum(ys(points@), e.y_min as int)
            &&& is_maximum(ys(points@), e.y_max as int)
        },
{
    if points.len() == 0 {
        return None;
    }
    let first = points[0];
    let mut e = Extents { x_min: first.x, x_max: first.x, y_min: first.y, y_max: first.y };
    let mut i: usize = 1;
    proof {
        let x1 = xs(points@).take(1);
        let y1 = ys(points@).take(1);
        assert(x1[0] == first.x && y1[0] == first.y);
    }
    while i < points.len()
        invariant
            1 <= i <= points.len(),
            is_minimum(xs(points@).take(i as int), e.x_min as int),
            is_maximum(xs(points@).take(i as int), e.x_max as int),
            is_minimum(ys(points@).take(i as int), e.y_min as int),
            is_maximum(ys(points@).take(i as int), e.y_max as int),
        decreases points.len() - i,
    {
        let p = points[i];
        proof {
            lemma_extend_extremes(xs(points@), i as int, e.x_min as int, e.x_max as int);
            lemma_extend_extremes(ys(points@), i as int, e.y_min as int, e.y_max as int);
        }
        if p.x < e.x_min {
            e.x_min = p.x;
        }
        if p.x > e.x_max {
            e.x_max = p.x;
        }
        if p.y < e.y_min {
            e.y_min = p.y;
        }
        if p.y > e.y_max {
            e.y_max = p.y;
        }
        i = i + 1;
    }
    proof {
        assert(xs(points@).take(i as int) =~= xs(points@));
        assert(ys(points@).take(i as int) =~= ys(points@));
        lemma_minimum_is_min(xs(points@), e.x_min as int);
        lemma_maximum_is_max(xs(points@), e.x_max as int);
        lemma_minimum_is_min(ys(points@), e.y_min as int);
        lemma_maximum_is_max(ys(points@), e.y_max as int);
    }
    Some(e)
}

/// Taking one more element into a prefix keeps each extreme or replaces it
/// by the new element.
proof fn lemma_extend_extremes(s: Seq<int>, i: int, lo: int, hi: int)
    requires
        1 <= i < s.len(),
        is_minimum(s.take(i), lo),
        is_maximum(s.take(i), hi),
    ensures
        is_minimum(s.take(i + 1), if s[i] < lo { s[i] } else { lo }),
        is_maximum(s.take(i + 1), if s[i] > hi { s[i] } else { hi }),
{
    let a = s.take(i);
    let b = s.take(i + 1);
    let jl = choose|j: int| 0 <= j < a.len() && a[j] == lo;
    let jh = choose|j: int| 0 <= j < a.len() && a[j] == hi;
    assert(b[jl] == lo && b[jh] == hi && b[i] == s[i]);
    assert forall|j: int| 0 <= j < b.len() implies (if s[i] < lo { s[i] } else { lo }) <= b[j] by {
        if j < i {
            assert(a[j] == b[j]);
        }
    }
    assert forall|j: int| 0 <= j < b.len() implies b[j] <= (if s[i] > hi { s[i] } else { hi }) by {
        if j < i {
            assert(a[j] == b[j]);
        }
    }
}

/// One bound of an axis: the pinned value where there is one, else the
/// inferred one, else the fallback.
pub open spec fn resolved_bound(pinned: Option<i64>, inferred: Option<i64>, fallback: i64) -> i64 {
    match pinned {
        Some(v) => v,
        None => match inferred {
            Some(v) => v,
            None => fallback,
        },
    }
}

/// Resolves one bound of an axis. A pinned value always wins, whatever the
/// data say.
pub fn resolve_bound(pinned: Option<i64>, inferred: Option<i64>, fallback: i64) -> (r: i64)
    ensures
        r == resolved_bound(pinned, inferred, fallback),
{
    match pinned {
        Some(v) => v,
        None => match inferred {
            Some(v) => v,
            None => fallback,
        },
    }
}

} // verus!
