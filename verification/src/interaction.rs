//! Gizmo interaction: hover, and the drag state machine.
//!
//! The gizmo is idle or dragging. A press on a hovered handle starts a drag,
//! holding the button updates it, and releasing the button ends it. While a
//! drag lasts, hover is frozen and no second drag can start.
//!
//! Each step takes what the host observed in this frame (button state, the
//! hits of the cursor ray, the geometry captured at drag start) and returns
//! or stores what follows from it.

use crate::gizmo_frame::{plane_axes, plane_axes_of, AxisKind, GizmoFrame};
use crate::picking::{closest_hit, closest_hit_in, HoverHit, TargetHits};
use crate::types::{
    GizmoAxis, GizmoOperation, TransformGizmoDrag, TransformGizmoSnap, TransformGizmoState,
    TransformGizmoStyle,
};
use vstd::prelude::*;

verus! {

/// The handle that a press would start to drag.
#[derive(Debug, Clone, Copy, PartialEq, Eq)]
pub struct DragRequest {
    /// The target that owns the handle.
    pub target: u64,
    /// The operation of the handle.
    pub op: GizmoOperation,
    /// The axis of the handle.
    pub axis: GizmoAxis,
}

/// The geometry that the host captures when a drag starts.
#[derive(Debug, Clone, Copy, PartialEq)]
pub struct DragStart<V, Q, S> {
    /// The world-space origin of the gizmo.
    pub origin: V,
    /// The direction of the primary axis in world space.
    pub axis_dir: V,
    /// Normal of the interaction plane used for mouse projection.
    pub plane_normal: V,
    /// Origin point of the interaction plane.
    pub plane_origin: V,
    /// First direction vector for planar operations.
    pub plane_dir1: V,
    /// Second direction vector for planar operations.
    pub plane_dir2: V,
    /// The target's translation.
    pub start_translation: V,
    /// The target's rotation.
    pub start_rotation: Q,
    /// The target's scale.
    pub start_scale: V,
    /// Initial parameter value (distance or angle).
    pub start_t: S,
    /// Initial vector from origin to hit point (for planar/rotation ops).
    pub start_vector: V,
}

/// What a held drag changes in this frame, with the snap increments that
/// apply to it.
#[derive(Debug, Clone, Copy, PartialEq)]
pub enum DragUpdate<S> {
    /// Move along the drag axis; `step` snaps the distance moved.
    TranslateAxis {
        /// Snap increment of the drag axis.
        step: Option<S>,
    },
    /// Move in the plane; the two plane directions snap independently.
    TranslatePlane {
        /// Snap increment along the first plane axis.
        step1: Option<S>,
        /// Snap increment along the second plane axis.
        step2: Option<S>,
    },
    /// Scale the component of the drag axis; `step` snaps the resulting
    /// scale.
    ScaleAxis {
        /// Snap increment of the drag axis.
        step: Option<S>,
    },
    /// Scale all components by one factor; `step` snaps the resulting
    /// X scale.
    ScaleUniform {
        /// Snap increment of the X axis.
        step: Option<S>,
    },
    /// Turn about the drag axis; `step` snaps the angle turned.
    Rotate {
        /// Snap increment of the drag axis.
        step: Option<S>,
    },
}

/// How the plane through the gizmo origin is laid in which a drag follows
/// the cursor ray.
#[derive(Debug, Clone, Copy, PartialEq, Eq, Structural)]
pub enum DragPlane {
    /// The plane whose normal is the drag axis.
    AcrossAxis,
    /// The plane that holds the drag axis and faces the camera; if the axis
    /// points at the camera, the plane whose normal is the axis.
    AlongAxis,
    /// A plane that holds the view direction.
    AlongView,
}

/// What a drag measures at its start as the zero of its parameter.
#[derive(Debug, Clone, Copy, PartialEq, Eq, Structural)]
pub enum StartParameter {
    /// The distance of the hit point from the origin along the drag axis.
    AxisDistance,
    /// The angle of the hit point about the drag axis.
    Angle,
    /// The distance of the hit point from the origin.
    Distance,
    /// Nothing: the parameter is zero.
    Zero,
}

/// What a drag keeps at its start as its reference vector.
#[derive(Debug, Clone, Copy, PartialEq, Eq, Structural)]
pub enum StartVector {
    /// The vector from the origin to the hit point, laid into the plane.
    InPlane,
    /// The vector from the origin to the hit point.
    ToHit,
    /// Nothing: the vector is zero.
    Zero,
}

/// The plane in which a drag of an operation follows the cursor ray.
pub open spec fn drag_plane_of(op: GizmoOperation) -> DragPlane {
    match op {
        GizmoOperation::Rotate | GizmoOperation::TranslatePlane => DragPlane::AcrossAxis,
        GizmoOperation::TranslateAxis | GizmoOperation::ScaleAxis => DragPlane::AlongAxis,
        GizmoOperation::ScaleUniform => DragPlane::AlongView,
    }
}

/// What a drag of an operation measures at its start.
pub open spec fn start_parameter_of(op: GizmoOperation) -> StartParameter {
    match op {
        GizmoOperation::TranslateAxis | GizmoOperation::ScaleAxis => StartParameter::AxisDistance,
        GizmoOperation::Rotate => StartParameter::Angle,
        GizmoOperation::TranslatePlane => StartParameter::Zero,
        GizmoOperation::ScaleUniform => StartParameter::Distance,
    }
}

/// What a drag of an operation keeps at its start as its reference vector.
pub open spec fn start_vector_of(op: GizmoOperation) -> StartVector {
    match op {
        GizmoOperation::TranslatePlane => StartVector::InPlane,
        GizmoOperation::Rotate => StartVector::ToHit,
        GizmoOperation::TranslateAxis | GizmoOperation::ScaleAxis | GizmoOperation::ScaleUniform =>
            StartVector::Zero,
    }
}

/// The two axes by which a drag snaps in its plane: the axes that span the
/// plane for a planar translation, X and Y (unused) for any other
/// operation.
pub open spec fn drag_plane_axes_of(op: GizmoOperation, axis: GizmoAxis) -> (GizmoAxis, GizmoAxis) {
    if op == GizmoOperation::TranslatePlane {
        plane_axes_of(axis)
    } else {
        (GizmoAxis::X, GizmoAxis::Y)
    }
}

/// The drag that a request and the captured geometry make up.
pub open spec fn drag_of<V, Q, S>(request: DragRequest, start: DragStart<V, Q, S>) -> TransformGizmoDrag<
    V,
    Q,
    S,
> {
    TransformGizmoDrag {
        target: request.target,
        op: request.op,
        axis: request.axis,
        origin: start.origin,
        axis_dir: start.axis_dir,
        plane_normal: start.plane_normal,
        plane_origin: start.plane_origin,
        plane_dir1: start.plane_dir1,
        plane_dir2: start.plane_dir2,
        plane_axis1: drag_plane_axes_of(request.op, request.axis).0,
        plane_axis2: drag_plane_axes_of(request.op, request.axis).1,
        start_translation: start.start_translation,
        start_rotation: start.start_rotation,
        start_scale: start.start_scale,
        start_t: start.start_t,
        start_vector: start.start_vector,
    }
}

/// The vector from which the primary direction of a drag is taken: the
/// frame's axis of the matching kind, or the camera's forward direction for
/// uniform scale.
pub open spec fn drag_axis_vector_of<V: Copy>(
    frame: GizmoFrame<V>,
    op: GizmoOperation,
    axis: GizmoAxis,
    view_forward: V,
) -> V {
    match op {
        GizmoOperation::TranslateAxis | GizmoOperation::TranslatePlane => frame.dir(
            axis,
            AxisKind::Translate,
        ),
        GizmoOperation::Rotate => frame.dir(axis, AxisKind::Rotate),
        GizmoOperation::ScaleAxis => frame.dir(axis, AxisKind::Scale),
        GizmoOperation::ScaleUniform => view_forward,
    }
}

impl<V: Copy, Q: Copy, S: Copy> TransformGizmoState<V, Q, S> {
    /// The state after the host named the first target that carries the
    /// active marker: that target becomes the active one; with no such
    /// target the state stays as it is.
    pub open spec fn with_active(self, found: Option<u64>) -> Self {
        match found {
            Some(target) => TransformGizmoState { active_target: Some(target), ..self },
            None => self,
        }
    }

    /// The state after a hover pass found `hit`: unchanged while a drag
    /// lasts; else the hit's target becomes active and its handle hovered,
    /// or, with no hit, nothing is hovered and the active target stays.
    pub open spec fn with_hover(self, hit: Option<HoverHit>) -> Self {
        if self.drag is Some {
            self
        } else {
            match hit {
                Some(h) => TransformGizmoState {
                    active_target: Some(h.target),
                    hovered_axis: Some(h.axis),
                    hovered_op: Some(h.op),
                    ..self
                },
                None => TransformGizmoState { hovered_axis: None, hovered_op: None, ..self },
            }
        }
    }

    /// The handle that a drag would start on: there is one exactly if the
    /// primary button was just pressed, no drag lasts, and an axis, an
    /// operation and an active target are set.
    pub open spec fn drag_request_of(self, just_pressed: bool) -> Option<DragRequest> {
        if just_pressed && self.drag is None && self.hovered_axis is Some && self.hovered_op is Some
            && self.active_target is Some {
            Some(
                DragRequest {
                    target: self.active_target.unwrap(),
                    op: self.hovered_op.unwrap(),
                    axis: self.hovered_axis.unwrap(),
                },
            )
        } else {
            None
        }
    }

    /// The state after a press: a drag starts exactly if there is a handle
    /// to start on and the host could capture the start geometry; else the
    /// state stays as it is.
    pub open spec fn with_drag_begun(self, just_pressed: bool, start: Option<DragStart<V, Q, S>>) -> Self {
        match (self.drag_request_of(just_pressed), start) {
            (Some(request), Some(start)) => TransformGizmoState {
                drag: Some(drag_of(request, start)),
                ..self
            },
            _ => self,
        }
    }

    /// The state after the button state was seen: the drag is gone if the
    /// primary button was just released; else the state stays as it is.
    pub open spec fn with_drag_ended(self, just_released: bool) -> Self {
        if just_released {
            TransformGizmoState { drag: None, ..self }
        } else {
            self
        }
    }

    /// What a held drag changes: nothing without a drag or while the
    /// primary button is up; else the operation of the drag with the snap
    /// increments of its axes.
    pub open spec fn drag_update_of(self, snap: TransformGizmoSnap<S>, pressed: bool) -> Option<
        DragUpdate<S>,
    > {
        match self.drag {
            Some(drag) if pressed => Some(
                match drag.op {
                    GizmoOperation::TranslateAxis => DragUpdate::TranslateAxis {
                        step: snap.translate.increment(drag.axis),
                    },
                    GizmoOperation::TranslatePlane => DragUpdate::TranslatePlane {
                        step1: snap.translate.increment(drag.plane_axis1),
                        step2: snap.translate.increment(drag.plane_axis2),
                    },
                    GizmoOperation::ScaleAxis => DragUpdate::ScaleAxis {
                        step: snap.scale.increment(drag.axis),
                    },
                    GizmoOperation::ScaleUniform => DragUpdate::ScaleUniform {
                        step: snap.scale.increment(GizmoAxis::X),
                    },
                    GizmoOperation::Rotate => DragUpdate::Rotate {
                        step: snap.rotate.increment(drag.axis),
                    },
                },
            ),
            _ => None,
        }
    }
}

/// Makes the first target that carries the active marker the active one.
pub fn sync_active_target<V: Copy, Q: Copy, S: Copy>(state: &mut TransformGizmoState<V, Q, S>, found: Option<u64>)
    ensures
        *final(state) == old(state).with_active(found),
{
    if let Some(target) = found {
        state.active_target = Some(target);
    }
}

/// Stores the outcome of a hover pass, unless a drag is in progress.
pub fn apply_hover<V: Copy, Q: Copy, S: Copy>(state: &mut TransformGizmoState<V, Q, S>, hit: Option<HoverHit>)
    ensures
        *final(state) == old(state).with_hover(hit),
        old(state).drag is Some ==> *final(state) == *old(state),
{
    if state.drag.is_some() {
        return ;
    }
    match hit {
        Some(h) => {
            state.active_target = Some(h.target);
            state.hovered_axis = Some(h.axis);
            state.hovered_op = Some(h.op);
        },
        None => {
            state.hovered_axis = None;
            state.hovered_op = None;
        },
    }
}

/// Determine which gizmo part (if any) is currently hovered.
///
/// `targets` holds, for each target in the host's order, what the cursor ray
/// hits on its gizmo; it is empty when there is no cursor ray. The closest
/// hit on an enabled handle becomes the hovered handle and its target the
/// active one. Nothing changes while a drag is in progress.
pub fn update_hovered_axis<V: Copy, Q: Copy, S: Copy, C>(
    state: &mut TransformGizmoState<V, Q, S>,
    style: &TransformGizmoStyle<S, C>,
    targets: &Vec<TargetHits>,
)
    ensures
        *final(state) == old(state).with_hover(closest_hit_in(*style, targets@)),
        old(state).drag is Some ==> *final(state) == *old(state),
{
    // We only care about hover when we are not currently dragging.
    if state.drag.is_some() {
        return ;
    }
    let hit = closest_hit(style, targets);
    apply_hover(state, hit);
}

/// Returns the handle that a drag would start on in this frame.
pub fn drag_request<V: Copy, Q: Copy, S: Copy>(state: &TransformGizmoState<V, Q, S>, just_pressed: bool) -> (request:
    Option<DragRequest>)
    ensures
        request == state.drag_request_of(just_pressed),
{
    if !just_pressed {
        return None;
    }
    if state.drag.is_some() {
        return None;
    }
    let Some(axis) = state.hovered_axis else {
        return None;
    };
    let Some(op) = state.hovered_op else {
        return None;
    };
    let Some(target) = state.active_target else {
        return None;
    };
    Some(DragRequest { target, op, axis })
}

/// Returns the vector from which the primary direction of a drag is taken.
pub fn drag_axis_vector<V: Copy>(
    frame: &GizmoFrame<V>,
    op: GizmoOperation,
    axis: GizmoAxis,
    view_forward: V,
) -> (v: V)
    ensures
        v == drag_axis_vector_of(*frame, op, axis, view_forward),
{
    match op {
        GizmoOperation::TranslateAxis | GizmoOperation::TranslatePlane => frame.axis_dir(
            axis,
            AxisKind::Translate,
        ),
        GizmoOperation::Rotate => frame.axis_dir(axis, AxisKind::Rotate),
        GizmoOperation::ScaleAxis => frame.axis_dir(axis, AxisKind::Scale),
        GizmoOperation::ScaleUniform => view_forward,
    }
}

/// Returns the plane in which a drag of an operation follows the cursor ray.
pub fn drag_plane(op: GizmoOperation) -> (plane: DragPlane)
    ensures
        plane == drag_plane_of(op),
{
    match op {
        GizmoOperation::Rotate | GizmoOperation::TranslatePlane => DragPlane::AcrossAxis,
        GizmoOperation::TranslateAxis | GizmoOperation::ScaleAxis => DragPlane::AlongAxis,
        GizmoOperation::ScaleUniform => DragPlane::AlongView,
    }
}

/// Returns what a drag of an operation measures at its start.
pub fn start_parameter(op: GizmoOperation) -> (parameter: StartParameter)
    ensures
        parameter == start_parameter_of(op),
{
    match op {
        GizmoOperation::TranslateAxis | GizmoOperation::ScaleAxis => StartParameter::AxisDistance,
        GizmoOperation::Rotate => StartParameter::Angle,
        GizmoOperation::TranslatePlane => StartParameter::Zero,
        GizmoOperation::ScaleUniform => StartParameter::Distance,
    }
}

/// Returns what a drag of an operation keeps at its start as its reference
/// vector.
pub fn start_vector(op: GizmoOperation) -> (vector: StartVector)
    ensures
        vector == start_vector_of(op),
{
    match op {
        GizmoOperation::TranslatePlane => StartVector::InPlane,
        GizmoOperation::Rotate => StartVector::ToHit,
        _ => StartVector::Zero,
    }
}

/// Returns the two axes by which a drag snaps in its plane.
pub fn drag_plane_axes(op: GizmoOperation, axis: GizmoAxis) -> (axes: (GizmoAxis, GizmoAxis))
    ensures
        axes == drag_plane_axes_of(op, axis),
{
    match op {
        GizmoOperation::TranslatePlane => plane_axes(axis),
        _ => (GizmoAxis::X, GizmoAxis::Y),
    }
}

/// Begin a drag when the primary button was just pressed on a hovered
/// handle.
///
/// `start` is the geometry that the host captured for the handle that
/// [`drag_request`] names, or `None` if it could not (no camera, no cursor,
/// no such target). Returns whether a drag was started. While a drag is in
/// progress a second one is rejected and the state keeps the first.
pub fn begin_drag<V: Copy, Q: Copy, S: Copy>(
    state: &mut TransformGizmoState<V, Q, S>,
    just_pressed: bool,
    start: Option<DragStart<V, Q, S>>,
) -> (started: bool)
    ensures
        *final(state) == old(state).with_drag_begun(just_pressed, start),
        started == (old(state).drag_request_of(just_pressed) is Some && start is Some),
        started ==> final(state).drag == Some(
            drag_of(old(state).drag_request_of(just_pressed).unwrap(), start.unwrap()),
        ),
        !started ==> *final(state) == *old(state),
        old(state).drag is Some ==> !started && *final(state) == *old(state),
{
    let Some(request) = drag_request(state, just_pressed) else {
        return false;
    };
    let Some(start) = start else {
        return false;
    };
    let (plane_axis1, plane_axis2) = drag_plane_axes(request.op, request.axis);
    state.drag = Some(
        TransformGizmoDrag {
            target: request.target,
            op: request.op,
            axis: request.axis,
            origin: start.origin,
            axis_dir: start.axis_dir,
            plane_normal: start.plane_normal,
            plane_origin: start.plane_origin,
            plane_dir1: start.plane_dir1,
            plane_dir2: start.plane_dir2,
            plane_axis1,
            plane_axis2,
            start_translation: start.start_translation,
            start_rotation: start.start_rotation,
            start_scale: start.start_scale,
            start_t: start.start_t,
            start_vector: start.start_vector,
        },
    );
    true
}

/// Update the drag operation while the primary button is held down.
///
/// Returns what the drag changes in this frame and the snap increments that
/// apply, or `None` if there is no drag or the button is up. The state is
/// only read: a drag is not changed between its start and its end.
pub fn drag_gizmo<V: Copy, Q: Copy, S: Copy>(
    state: &TransformGizmoState<V, Q, S>,
    snap: &TransformGizmoSnap<S>,
    pressed: bool,
) -> (update: Option<DragUpdate<S>>)
    ensures
        update == state.drag_update_of(*snap, pressed),
        update is Some <==> state.drag is Some && pressed,
{
    let Some(drag) = state.drag else {
        return None;
    };
    if !pressed {
        return None;
    }
    Some(
        match drag.op {
            GizmoOperation::TranslateAxis => DragUpdate::TranslateAxis {
                step: snap.translate.get(drag.axis),
            },
            GizmoOperation::TranslatePlane => DragUpdate::TranslatePlane {
                step1: snap.translate.get(drag.plane_axis1),
                step2: snap.translate.get(drag.plane_axis2),
            },
            GizmoOperation::ScaleAxis => DragUpdate::ScaleAxis { step: snap.scale.get(drag.axis) },
            GizmoOperation::ScaleUniform => DragUpdate::ScaleUniform {
                step: snap.scale.get(GizmoAxis::X),
            },
            GizmoOperation::Rotate => DragUpdate::Rotate { step: snap.rotate.get(drag.axis) },
        },
    )
}

/// End the drag operation when the primary button is released.
pub fn end_drag<V: Copy, Q: Copy, S: Copy>(state: &mut TransformGizmoState<V, Q, S>, just_released: bool)
    ensures
        *final(state) == old(state).with_drag_ended(just_released),
        just_released ==> final(state).drag is None,
        !just_released ==> *final(state) == *old(state),
{
    if just_released {
        state.drag = None;
    }
}

/// Mutual exclusion. While a drag is in progress, beginning another one is
/// rejected whatever the input: the state keeps the first drag unchanged.
pub proof fn lemma_second_drag_rejected<V: Copy, Q: Copy, S: Copy>(
    state: TransformGizmoState<V, Q, S>,
    just_pressed: bool,
    start: Option<DragStart<V, Q, S>>,
)
    requires
        state.drag is Some,
    ensures
        state.drag_request_of(just_pressed) is None,
        state.with_drag_begun(just_pressed, start) == state,
{
}

/// At most one drag. Once a drag has begun, a second begin leaves the state
/// as the first begin left it.
pub proof fn lemma_one_drag_at_a_time<V: Copy, Q: Copy, S: Copy>(
    state: TransformGizmoState<V, Q, S>,
    just_pressed: bool,
    start: Option<DragStart<V, Q, S>>,
    pressed_again: bool,
    start_again: Option<DragStart<V, Q, S>>,
)
    requires
        state.with_drag_begun(just_pressed, start).drag is Some,
    ensures
        state.with_drag_begun(just_pressed, start).with_drag_begun(pressed_again, start_again)
            == state.with_drag_begun(just_pressed, start),
{
}

/// A drag that begins takes its target, operation and axis from the hovered
/// handle of the active target, and changes nothing else in the state.
pub proof fn lemma_drag_begins_on_hovered_handle<V: Copy, Q: Copy, S: Copy>(
    state: TransformGizmoState<V, Q, S>,
    just_pressed: bool,
    start: DragStart<V, Q, S>,
)
    requires
        state.drag is None,
        state.with_drag_begun(just_pressed, Some(start)).drag is Some,
    ensures
        just_pressed,
        state.active_target == Some(
            state.with_drag_begun(just_pressed, Some(start)).drag.unwrap().target,
        ),
        state.hovered_op == Some(state.with_drag_begun(just_pressed, Some(start)).drag.unwrap().op),
        state.hovered_axis == Some(
            state.with_drag_begun(just_pressed, Some(start)).drag.unwrap().axis,
        ),
        state.with_drag_begun(just_pressed, Some(start)) == (TransformGizmoState {
            drag: state.with_drag_begun(just_pressed, Some(start)).drag,
            ..state
        }),
{
}

/// Hover is frozen while a drag is in progress: a hover pass changes
/// nothing, whatever lies under the cursor.
pub proof fn lemma_hover_frozen_while_dragging<V: Copy, Q: Copy, S: Copy>(
    state: TransformGizmoState<V, Q, S>,
    hit: Option<HoverHit>,
)
    requires
        state.drag is Some,
    ensures
        state.with_hover(hit) == state,
{
}

/// A hover pass sets the hovered axis and the hovered operation together
/// or clears both, and never starts or ends a drag.
pub proof fn lemma_hover_sets_axis_and_operation_together<V: Copy, Q: Copy, S: Copy>(
    state: TransformGizmoState<V, Q, S>,
    hit: Option<HoverHit>,
)
    requires
        state.drag is None,
    ensures
        state.with_hover(hit).hovered_axis is Some <==> hit is Some,
        state.with_hover(hit).hovered_op is Some <==> hit is Some,
        state.with_hover(hit).drag is None,
        hit is None ==> state.with_hover(hit).active_target == state.active_target,
{
}

/// Releasing the button returns the gizmo to idle from any state, and a
/// press can then begin a drag again.
pub proof fn lemma_release_returns_to_idle<V: Copy, Q: Copy, S: Copy>(
    state: TransformGizmoState<V, Q, S>,
)
    ensures
        state.with_drag_ended(true).drag is None,
        state.with_drag_ended(true) == (TransformGizmoState { drag: None, ..state }),
        state.with_drag_ended(true).drag_request_of(true) is Some <==> state.hovered_axis is Some
            && state.hovered_op is Some && state.active_target is Some,
{
}

} // verus!
