//! Picking: which handle of which target lies closest under the cursor.
//!
//! The host intersects the cursor ray with every handle shape and hands the
//! ray parameter of each intersection over as an unsigned code that keeps
//! the order of the parameters (a smaller code is nearer to the camera).
//! This module owns the rest: which handles take part, in which order they
//! are looked at, which targets are skipped by their bounding sphere, and
//! which single hit wins.

use crate::types::{GizmoAxis, GizmoOperation, TransformGizmoStyle};
use vstd::prelude::*;

verus! {

/// The ray parameter at and beyond which a hit is never picked: the code of
/// the largest finite single-precision parameter.
pub const T_LIMIT: u32 = 0x7F7F_FFFF;

/// The number of handles of one target.
pub const HANDLE_COUNT: usize = 13;

/// Ray parameters of the hits on the three per-axis handles of one kind,
/// `None` where the ray misses the handle.
#[derive(Debug, Clone, Copy, PartialEq, Eq)]
pub struct AxisHits {
    /// Hit on the handle of the X axis.
    pub x: Option<u32>,
    /// Hit on the handle of the Y axis.
    pub y: Option<u32>,
    /// Hit on the handle of the Z axis.
    pub z: Option<u32>,
}

impl AxisHits {
    /// No handle is hit.
    pub fn none() -> (hits: Self)
        ensures
            hits == (AxisHits { x: None, y: None, z: None }),
    {
        AxisHits { x: None, y: None, z: None }
    }

    /// The hit on the handle of one axis.
    pub open spec fn on(self, axis: GizmoAxis) -> Option<u32> {
        match axis {
            GizmoAxis::X => self.x,
            GizmoAxis::Y => self.y,
            GizmoAxis::Z => self.z,
        }
    }

    /// Returns the hit on the handle of one axis.
    pub fn get(&self, axis: GizmoAxis) -> (t: Option<u32>)
        ensures
            t == self.on(axis),
    {
        match axis {
            GizmoAxis::X => self.x,
            GizmoAxis::Y => self.y,
            GizmoAxis::Z => self.z,
        }
    }
}

/// What the cursor ray hits on the gizmo of one target.
#[derive(Debug, Clone, Copy, PartialEq, Eq)]
pub struct TargetHits {
    /// The target that owns the handles.
    pub target: u64,
    /// Hit on the bounding sphere of the whole gizmo.
    pub bounds: Option<u32>,
    /// Hits on the translation cones.
    pub translate: AxisHits,
    /// Hits on the scale cubes.
    pub scale: AxisHits,
    /// Hits on the rotation rings.
    pub rotate: AxisHits,
    /// Hits on the translation plane rectangles, by the normal of the plane.
    pub plane: AxisHits,
    /// Hit on the uniform scale handle at the origin.
    pub uniform: Option<u32>,
}

/// A hit on one handle.
#[derive(Debug, Clone, Copy, PartialEq, Eq)]
pub struct HoverHit {
    /// The target that owns the handle.
    pub target: u64,
    /// The operation of the handle.
    pub op: GizmoOperation,
    /// The axis of the handle. The uniform scale handle reports X.
    pub axis: GizmoAxis,
    /// The ray parameter of the hit.
    pub t: u32,
}

/// The axis at a position in the order X, Y, Z.
pub open spec fn axis_at(i: int) -> GizmoAxis {
    if i == 0 {
        GizmoAxis::X
    } else if i == 1 {
        GizmoAxis::Y
    } else {
        GizmoAxis::Z
    }
}

/// The handle at a position in the order in which the handles of a target
/// are looked at: the translation cones, the scale cubes, the rotation
/// rings and the translation planes, each for X, Y and Z, then the uniform
/// scale handle.
pub open spec fn handle_at(i: int) -> (GizmoOperation, GizmoAxis) {
    if 0 <= i < 3 {
        (GizmoOperation::TranslateAxis, axis_at(i))
    } else if 3 <= i < 6 {
        (GizmoOperation::ScaleAxis, axis_at(i - 3))
    } else if 6 <= i < 9 {
        (GizmoOperation::Rotate, axis_at(i - 6))
    } else if 9 <= i < 12 {
        (GizmoOperation::TranslatePlane, axis_at(i - 9))
    } else {
        (GizmoOperation::ScaleUniform, GizmoAxis::X)
    }
}

/// Returns the handle at a position in the order in which the handles of a
/// target are looked at.
pub fn handle_order(i: usize) -> (handle: (GizmoOperation, GizmoAxis))
    ensures
        handle == handle_at(i as int),
{
    let op = if i < 3 {
        GizmoOperation::TranslateAxis
    } else if i < 6 {
        GizmoOperation::ScaleAxis
    } else if i < 9 {
        GizmoOperation::Rotate
    } else if i < 12 {
        GizmoOperation::TranslatePlane
    } else {
        GizmoOperation::ScaleUniform
    };
    let axis = if i >= 12 || i % 3 == 0 {
        GizmoAxis::X
    } else if i % 3 == 1 {
        GizmoAxis::Y
    } else {
        GizmoAxis::Z
    };
    (op, axis)
}

impl TargetHits {
    /// The hit on the handle of an operation on an axis. The uniform scale
    /// handle has one hit whatever the axis.
    pub open spec fn on(self, op: GizmoOperation, axis: GizmoAxis) -> Option<u32> {
        match op {
            GizmoOperation::TranslateAxis => self.translate.on(axis),
            GizmoOperation::ScaleAxis => self.scale.on(axis),
            GizmoOperation::Rotate => self.rotate.on(axis),
            GizmoOperation::TranslatePlane => self.plane.on(axis),
            GizmoOperation::ScaleUniform => self.uniform,
        }
    }

    /// Returns the hit on the handle of an operation on an axis.
    pub fn get(&self, op: GizmoOperation, axis: GizmoAxis) -> (t: Option<u32>)
        ensures
            t == self.on(op, axis),
    {
        match op {
            GizmoOperation::TranslateAxis => self.translate.get(axis),
            GizmoOperation::ScaleAxis => self.scale.get(axis),
            GizmoOperation::Rotate => self.rotate.get(axis),
            GizmoOperation::TranslatePlane => self.plane.get(axis),
            GizmoOperation::ScaleUniform => self.uniform,
        }
    }

    /// The hit that the handle at position `i` puts forward: none if the
    /// style switches the handle off or the ray misses it.
    pub open spec fn candidate<S, C>(self, style: TransformGizmoStyle<S, C>, i: int) -> Option<
        HoverHit,
    > {
        let (op, axis) = handle_at(i);
        if style.handle_enabled(op, axis) {
            match self.on(op, axis) {
                Some(t) => Some(HoverHit { target: self.target, op, axis, t }),
                None => None,
            }
        } else {
            None
        }
    }

    /// Returns the hit that the handle at position `i` puts forward.
    pub fn candidate_at<S, C>(&self, style: &TransformGizmoStyle<S, C>, i: usize) -> (cand: Option<
        HoverHit,
    >)
        ensures
            cand == self.candidate(*style, i as int),
    {
        let (op, axis) = handle_order(i);
        if style.is_handle_enabled(op, axis) {
            match self.get(op, axis) {
                Some(t) => Some(HoverHit { target: self.target, op, axis, t }),
                None => None,
            }
        } else {
            None
        }
    }
}

/// The ray parameter that a new hit must stay below to replace the best hit
/// so far.
pub open spec fn limit_of(best: Option<HoverHit>) -> u32 {
    match best {
        Some(h) => h.t,
        None => T_LIMIT,
    }
}

/// The better of the best hit so far and a new candidate: the candidate
/// wins only if it is strictly nearer, so of two equally near hits the one
/// looked at first stays.
pub open spec fn offer(best: Option<HoverHit>, cand: Option<HoverHit>) -> Option<HoverHit> {
    match cand {
        Some(c) => if c.t < limit_of(best) {
            Some(c)
        } else {
            best
        },
        None => best,
    }
}

/// Whether a target whose bounding sphere is hit at `bounds` is looked at:
/// not if the ray misses the sphere, nor if it enters the sphere beyond the
/// best hit so far.
pub open spec fn admits(best: Option<HoverHit>, bounds: Option<u32>) -> bool {
    bounds matches Some(b) && b <= limit_of(best)
}

/// The best hit after the first `n` handles of a target were looked at.
pub open spec fn scan_handles<S, C>(
    best: Option<HoverHit>,
    style: TransformGizmoStyle<S, C>,
    hits: TargetHits,
    n: nat,
) -> Option<HoverHit>
    decreases n,
{
    if n == 0 {
        best
    } else {
        offer(scan_handles(best, style, hits, (n - 1) as nat), hits.candidate(style, n - 1))
    }
}

/// The best hit after a target was looked at.
pub open spec fn scan_target<S, C>(
    best: Option<HoverHit>,
    style: TransformGizmoStyle<S, C>,
    hits: TargetHits,
) -> Option<HoverHit> {
    if admits(best, hits.bounds) {
        scan_handles(best, style, hits, HANDLE_COUNT as nat)
    } else {
        best
    }
}

/// The hit that wins among the targets, looked at in their order.
pub open spec fn closest_hit_in<S, C>(
    style: TransformGizmoStyle<S, C>,
    targets: Seq<TargetHits>,
) -> Option<HoverHit>
    decreases targets.len(),
{
    if targets.len() == 0 {
        None
    } else {
        scan_target(closest_hit_in(style, targets.drop_last()), style, targets.last())
    }
}

/// Returns the better of the best hit so far and a new candidate.
pub fn pick_closer(best: Option<HoverHit>, cand: Option<HoverHit>) -> (picked: Option<HoverHit>)
    ensures
        picked == offer(best, cand),
{
    let limit: u32 = match best {
        Some(h) => h.t,
        None => T_LIMIT,
    };
    match cand {
        Some(c) => if c.t < limit {
            Some(c)
        } else {
            best
        },
        None => best,
    }
}

/// Looks at one target: returns the best hit so far unchanged if the
/// bounding sphere rules the target out, else the best of it and of the
/// hits on the target's enabled handles.
pub fn scan_target_hits<S, C>(
    best: Option<HoverHit>,
    style: &TransformGizmoStyle<S, C>,
    hits: &TargetHits,
) -> (picked: Option<HoverHit>)
    ensures
        picked == scan_target(best, *style, *hits),
{
    let limit: u32 = match best {
        Some(h) => h.t,
        None => T_LIMIT,
    };
    match hits.bounds {
        None => {
            return best;
        },
        Some(b) => {
            if b > limit {
                return best;
            }
        },
    }
    let mut picked = best;
    let mut i: usize = 0;
    while i < HANDLE_COUNT
        invariant
            i <= HANDLE_COUNT,
            picked == scan_handles(best, *style, *hits, i as nat),
        decreases HANDLE_COUNT - i,
    {
        picked = pick_closer(picked, hits.candidate_at(style, i));
        i += 1;
    }
    picked
}

/// Finds the closest handle under the cursor among all targets.
pub fn closest_hit<S, C>(style: &TransformGizmoStyle<S, C>, targets: &Vec<TargetHits>) -> (picked:
    Option<HoverHit>)
    ensures
        picked == closest_hit_in(*style, targets@),
{
    let mut picked: Option<HoverHit> = None;
    let mut i: usize = 0;
    while i < targets.len()
        invariant
            i <= targets.len(),
            picked == closest_hit_in(*style, targets@.take(i as int)),
        decreases targets.len() - i,
    {
        proof {
            assert(targets@.take(i + 1).drop_last() == targets@.take(i as int));
        }
        picked = scan_target_hits(picked, style, &targets[i]);
        i += 1;
    }
    proof {
        assert(targets@.take(i as int) == targets@);
    }
    picked
}

/// An offer never moves the best hit away from the camera, and leaves it no
/// farther than the candidate.
pub proof fn lemma_offer_bound(best: Option<HoverHit>, cand: Option<HoverHit>)
    ensures
        limit_of(offer(best, cand)) <= limit_of(best),
        cand matches Some(c) ==> limit_of(offer(best, cand)) <= c.t,
        offer(best, cand) == best || offer(best, cand) == cand,
{
}

/// After the first `n` handles of a target were looked at, the best hit is
/// no farther than before.
pub proof fn lemma_scan_handles_monotone<S, C>(
    best: Option<HoverHit>,
    style: TransformGizmoStyle<S, C>,
    hits: TargetHits,
    n: nat,
)
    ensures
        limit_of(scan_handles(best, style, hits, n)) <= limit_of(best),
    decreases n,
{
    if n > 0 {
        lemma_scan_handles_monotone(best, style, hits, (n - 1) as nat);
    }
}

/// After the first `n` handles of a target were looked at, the best hit is
/// no farther than the hit on any of them.
pub proof fn lemma_scan_handles_bound<S, C>(
    best: Option<HoverHit>,
    style: TransformGizmoStyle<S, C>,
    hits: TargetHits,
    n: nat,
    k: int,
)
    requires
        0 <= k < n,
    ensures
        hits.candidate(style, k) matches Some(c) ==> limit_of(scan_handles(best, style, hits, n))
            <= c.t,
    decreases n,
{
    if k < n - 1 {
        lemma_scan_handles_bound(best, style, hits, (n - 1) as nat, k);
    } else {
        lemma_scan_handles_monotone(best, style, hits, (n - 1) as nat);
    }
}

/// The best hit after the first `n` handles of a target is the best hit
/// from before or the hit on one of those handles.
pub proof fn lemma_scan_handles_source<S, C>(
    best: Option<HoverHit>,
    style: TransformGizmoStyle<S, C>,
    hits: TargetHits,
    n: nat,
)
    ensures
        scan_handles(best, style, hits, n) == best || exists|k: int|
            0 <= k < n && #[trigger] hits.candidate(style, k) == scan_handles(
                best,
                style,
                hits,
                n,
            ),
    decreases n,
{
    if n > 0 {
        let before = scan_handles(best, style, hits, (n - 1) as nat);
        let after = scan_handles(best, style, hits, n);
        lemma_scan_handles_source(best, style, hits, (n - 1) as nat);
        if after == before {
            if before != best {
                let k = choose|k: int| 0 <= k < n - 1 && #[trigger] hits.candidate(style, k) == before;
                assert(0 <= k < n && hits.candidate(style, k) == after);
            }
        } else {
            assert(hits.candidate(style, n - 1) == after);
        }
    }
}

/// Looking at more targets never moves the winner away from the camera.
pub proof fn lemma_closest_monotone<S, C>(
    style: TransformGizmoStyle<S, C>,
    targets: Seq<TargetHits>,
    j: int,
)
    requires
        0 <= j <= targets.len(),
    ensures
        limit_of(closest_hit_in(style, targets)) <= limit_of(
            closest_hit_in(style, targets.take(j)),
        ),
    decreases targets.len(),
{
    if j == targets.len() {
        assert(targets.take(j) == targets);
    } else {
        let init = targets.drop_last();
        assert(init.take(j) == targets.take(j));
        lemma_closest_monotone(style, init, j);
        lemma_scan_handles_monotone(
            closest_hit_in(style, init),
            style,
            targets.last(),
            HANDLE_COUNT as nat,
        );
    }
}

/// The winner lies strictly below the limit and is the hit that an enabled
/// handle of one of the targets put forward.
pub proof fn lemma_closest_is_candidate<S, C>(
    style: TransformGizmoStyle<S, C>,
    targets: Seq<TargetHits>,
)
    ensures
        closest_hit_in(style, targets) matches Some(h) ==> h.t < T_LIMIT && exists|i: int, k: int|
            0 <= i < targets.len() && 0 <= k < HANDLE_COUNT && #[trigger] targets[i].candidate(
                style,
                k,
            ) == Some(h),
    decreases targets.len(),
{
    if targets.len() > 0 {
        let init = targets.drop_last();
        let before = closest_hit_in(style, init);
        let after = closest_hit_in(style, targets);
        lemma_closest_is_candidate(style, init);
        if after != before {
            let last = targets.len() - 1;
            lemma_scan_handles_source(before, style, targets.last(), HANDLE_COUNT as nat);
            let k = choose|k: int|
                0 <= k < HANDLE_COUNT && #[trigger] targets.last().candidate(style, k) == after;
            assert(targets[last].candidate(style, k) == after);
            lemma_scan_handles_monotone(before, style, targets.last(), HANDLE_COUNT as nat);
            lemma_closest_strict(style, targets);
        } else if let Some(h) = after {
            let (i, k) = choose|i: int, k: int|
                0 <= i < init.len() && 0 <= k < HANDLE_COUNT && #[trigger] init[i].candidate(
                    style,
                    k,
                ) == Some(h);
            assert(targets[i].candidate(style, k) == Some(h));
        }
    }
}

/// The winner, if there is one, lies strictly below the limit.
pub proof fn lemma_closest_strict<S, C>(style: TransformGizmoStyle<S, C>, targets: Seq<TargetHits>)
    ensures
        closest_hit_in(style, targets) matches Some(h) ==> h.t < T_LIMIT,
    decreases targets.len(),
{
    if targets.len() > 0 {
        let before = closest_hit_in(style, targets.drop_last());
        lemma_closest_strict(style, targets.drop_last());
        lemma_scan_handles_strict(before, style, targets.last(), HANDLE_COUNT as nat);
    }
}

/// Looking at handles keeps the best hit strictly below the limit.
pub proof fn lemma_scan_handles_strict<S, C>(
    best: Option<HoverHit>,
    style: TransformGizmoStyle<S, C>,
    hits: TargetHits,
    n: nat,
)
    requires
        best matches Some(b) ==> b.t < T_LIMIT,
    ensures
        scan_handles(best, style, hits, n) matches Some(h) ==> h.t < T_LIMIT,
    decreases n,
{
    if n > 0 {
        lemma_scan_handles_strict(best, style, hits, (n - 1) as nat);
    }
}

/// Hover priority. Of all the hits on enabled handles of targets whose
/// bounding sphere is entered no farther than the winner, none is nearer
/// than the winner; if there is no winner, none of them lies below the
/// limit.
pub proof fn lemma_closest_is_nearest<S, C>(
    style: TransformGizmoStyle<S, C>,
    targets: Seq<TargetHits>,
    i: int,
    k: int,
)
    requires
        0 <= i < targets.len(),
        0 <= k < HANDLE_COUNT,
        admits(closest_hit_in(style, targets), targets[i].bounds),
    ensures
        targets[i].candidate(style, k) matches Some(c) ==> limit_of(closest_hit_in(style, targets))
            <= c.t,
{
    let before = closest_hit_in(style, targets.take(i));
    let upto = targets.take(i + 1);
    assert(upto.drop_last() == targets.take(i));
    assert(upto.last() == targets[i]);
    lemma_closest_monotone(style, targets, i);
    lemma_closest_monotone(style, targets, i + 1);
    lemma_scan_handles_bound(before, style, targets[i], HANDLE_COUNT as nat, k);
}

/// Hover priority among handles that lie inside their bounding sphere. A
/// hit on an enabled handle that is no nearer than the hit on the bounding
/// sphere of its own target is no nearer than the winner.
pub proof fn lemma_closest_is_nearest_within_bounds<S, C>(
    style: TransformGizmoStyle<S, C>,
    targets: Seq<TargetHits>,
    i: int,
    k: int,
)
    requires
        0 <= i < targets.len(),
        0 <= k < HANDLE_COUNT,
        targets[i].candidate(style, k) is Some,
        targets[i].bounds matches Some(b) && b <= targets[i].candidate(style, k).unwrap().t,
    ensures
        limit_of(closest_hit_in(style, targets)) <= targets[i].candidate(style, k).unwrap().t,
{
    if admits(closest_hit_in(style, targets), targets[i].bounds) {
        lemma_closest_is_nearest(style, targets, i, k);
    }
}

} // verus!
