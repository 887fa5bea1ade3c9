//! Ray/scene intersection policy.
//!
//! The renderer solves each sphere's quadratic in floating point and encodes
//! every parametric distance along the ray as an order-preserving integer
//! key (larger key, farther along the ray). Over those keys this module
//! makes the intersection decisions: which of a sphere's two roots counts as
//! its hit inside an open distance range, and which object the aggregate
//! scene reports as the nearest hit — the classic linear scan that shrinks
//! the far bound to the closest hit found so far.

use vstd::prelude::*;

verus! {

/// A distance key lies strictly inside the open range `(t_min, t_max)`.
pub open spec fn in_range(t: u64, t_min: u64, t_max: u64) -> bool {
    t_min < t && t < t_max
}

/// Root acceptance policy of the sphere intersection: the root on the near
/// side of the quadratic is tried first, then the far one; each counts only
/// strictly inside the open range.
pub open spec fn spec_select_root(near: u64, far: u64, t_min: u64, t_max: u64) -> Option<u64> {
    if in_range(near, t_min, t_max) {
        Some(near)
    } else if in_range(far, t_min, t_max) {
        Some(far)
    } else {
        None
    }
}

/// Pick a sphere's reported hit from its two quadratic roots.
///
/// The near root wins when it lies strictly inside `(t_min, t_max)`; failing
/// that the far root; failing both the sphere reports no hit. A sphere whose
/// discriminant was not positive has no roots to offer and never reaches
/// this choice.
pub fn select_root(near: u64, far: u64, t_min: u64, t_max: u64) -> (h: Option<u64>)
    ensures
        h == spec_select_root(near, far, t_min, t_max),
{
    if t_min < near && near < t_max {
        Some(near)
    } else if t_min < far && far < t_max {
        Some(far)
    } else {
        None
    }
}

/// One object's intersection candidates: its two quadratic roots as distance
/// keys, the near side first.
#[derive(Clone, Copy, PartialEq, Eq, Structural, Debug)]
pub struct RootPair {
    /// The root on the near side of the quadratic, `(-b - sqrt(disc)) / a`.
    pub near: u64,
    /// The root on the far side, `(-b + sqrt(disc)) / a`.
    pub far: u64,
}

/// The two roots of a real quadratic come ordered, near side first.
pub open spec fn wf_pair(p: RootPair) -> bool {
    p.near <= p.far
}

/// The hit one object reports for a range, under the root policy.
pub open spec fn spec_object_hit(p: RootPair, t_min: u64, t_max: u64) -> Option<u64> {
    spec_select_root(p.near, p.far, t_min, t_max)
}

/// An object either misses or hits no nearer than `t`.
pub open spec fn none_or_ge(h: Option<u64>, t: u64) -> bool {
    match h {
        None => true,
        Some(u) => u >= t,
    }
}

/// An object either misses or hits strictly farther than `t`.
pub open spec fn none_or_gt(h: Option<u64>, t: u64) -> bool {
    match h {
        None => true,
        Some(u) => u > t,
    }
}

/// What the aggregate scan promises: `h` carries the winning object's index
/// and distance; the winner hits at that distance over the full range, no
/// object hits nearer, and every earlier object hits strictly farther — so
/// in a tie of equally distant hits the first object wins.
pub open spec fn nearest_hit_post(
    objects: Seq<RootPair>,
    t_min: u64,
    t_max: u64,
    h: Option<(usize, u64)>,
) -> bool {
    match h {
        None => forall|j: int|
            0 <= j < objects.len() ==> spec_object_hit(objects[j], t_min, t_max) is None,
        Some(win) => {
            &&& 0 <= win.0 < objects.len()
            &&& spec_object_hit(objects[win.0 as int], t_min, t_max) == Some(win.1)
            &&& forall|j: int|
                0 <= j < objects.len() ==> none_or_ge(
                    spec_object_hit(objects[j], t_min, t_max),
                    win.1,
                )
            &&& forall|j: int|
                0 <= j < win.0 ==> none_or_gt(spec_object_hit(objects[j], t_min, t_max), win.1)
        },
    }
}

/// Scan an ordered scene for the globally nearest hit in `(t_min, t_max)`.
///
/// Each object is asked for its hit against the range narrowed to the
/// closest hit found so far; the result is the minimum over all the
/// objects' full-range hits, ties going to the earliest object, and `None`
/// exactly when no object hits the range at all.
pub fn nearest_hit(objects: &Vec<RootPair>, t_min: u64, t_max: u64) -> (h: Option<(usize, u64)>)
    requires
        forall|j: int| 0 <= j < objects@.len() ==> wf_pair(objects@[j]),
    ensures
        nearest_hit_post(objects@, t_min, t_max, h),
{
    let mut best: Option<(usize, u64)> = None;
    let mut closest: u64 = t_max;
    let mut i: usize = 0;
    while i < objects.len()
        invariant
            forall|j: int| 0 <= j < objects@.len() ==> wf_pair(objects@[j]),
            i <= objects.len(),
            closest <= t_max,
            best is None ==> closest == t_max,
            best is None ==> forall|j: int|
                0 <= j < i ==> spec_object_hit(objects@[j], t_min, t_max) is None,
            best matches Some(win) ==> {
                &&& win.0 < i
                &&& win.1 == closest
                &&& in_range(closest, t_min, t_max)
                &&& spec_object_hit(objects@[win.0 as int], t_min, t_max) == Some(win.1)
                &&& forall|j: int|
                    0 <= j < i ==> none_or_ge(spec_object_hit(objects@[j], t_min, t_max), win.1)
                &&& forall|j: int|
                    0 <= j < win.0 ==> none_or_gt(spec_object_hit(objects@[j], t_min, t_max), win.1)
            },
        decreases objects.len() - i,
    {
        let p = objects[i];
        match select_root(p.near, p.far, t_min, closest) {
            None => {
                proof {
                    lemma_narrowed_range(p, t_min, closest, t_max);
                }
            },
            Some(t) => {
                proof {
                    lemma_narrowed_range(p, t_min, closest, t_max);
                }
                best = Some((i, t));
                closest = t;
            },
        }
        i = i + 1;
    }
    best
}

/// Narrowing the far bound only filters hits: a hit found against the
/// narrowed range is the same hit the object reports over the full range,
/// and an object with no hit in the narrowed range hits the full range no
/// nearer than the narrow bound.
proof fn lemma_narrowed_range(p: RootPair, t_min: u64, t_mid: u64, t_max: u64)
    requires
        wf_pair(p),
        t_mid <= t_max,
    ensures
        spec_object_hit(p, t_min, t_mid) matches Some(t) ==> spec_object_hit(p, t_min, t_max)
            == Some(t) && t < t_mid,
        spec_object_hit(p, t_min, t_mid) is None ==> none_or_ge(
            spec_object_hit(p, t_min, t_max),
            t_mid,
        ),
{
}

/// The smaller of two objects' hits, a miss losing to any hit and a tie
/// going to the first.
pub open spec fn min_hit(a: Option<u64>, b: Option<u64>) -> Option<u64> {
    match a {
        None => b,
        Some(ta) => match b {
            None => Some(ta),
            Some(tb) => (if tb < ta {
                Some(tb)
            } else {
                Some(ta)
            }),
        },
    }
}

/// The distance of an aggregate hit, winner's index dropped.
pub open spec fn hit_distance(h: Option<(usize, u64)>) -> Option<u64> {
    match h {
        None => None,
        Some(win) => Some(win.1),
    }
}

/// For a scene of two objects — overlapping spheres included — the
/// aggregate's nearest hit is exactly the minimum of the two objects'
/// individual hits over the same range, for every range.
pub proof fn lemma_two_object_nearest(
    a: RootPair,
    b: RootPair,
    t_min: u64,
    t_max: u64,
    h: Option<(usize, u64)>,
)
    requires
        nearest_hit_post(seq![a, b], t_min, t_max, h),
    ensures
        hit_distance(h) == min_hit(
            spec_object_hit(a, t_min, t_max),
            spec_object_hit(b, t_min, t_max),
        ),
{
    let s = seq![a, b];
    assert(s[0] == a && s[1] == b);
}

} // verus!
