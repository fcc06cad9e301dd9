//! Gizmo rendering plan.
//!
//! For one target this module decides which elements of the gizmo are drawn,
//! in which order, and in which colour: an element that is being dragged
//! shows its active colour, else one under the cursor its hover colour, else
//! its idle colour. The host turns each element into line segments.

use crate::gizmo_frame::{plane_axes, plane_axes_of};
use crate::types::{
    AxisColors, GizmoAxis, GizmoOperation, GizmoStateColors, InteractionState, TransformGizmoState,
    TransformGizmoStyle,
};
use vstd::prelude::*;

verus! {

/// Number of line segments around the base of a translation cone.
pub const CONE_SEGMENTS: usize = 16;

/// Number of corners of a scale cube.
pub const CUBE_CORNERS: usize = 8;

/// Number of edges of a scale cube.
pub const CUBE_EDGES: usize = 12;

/// One drawable element of the gizmo of a target.
#[derive(Debug, Clone, Copy, PartialEq, Eq, Structural)]
pub enum GizmoElement {
    /// The line along an axis.
    AxisLine(GizmoAxis),
    /// The cone at the end of an axis line.
    TranslateCone(GizmoAxis),
    /// The rectangle in the plane with the given normal.
    TranslatePlane(GizmoAxis),
    /// The cube on an axis.
    ScaleCube(GizmoAxis),
    /// The camera-facing square at the origin.
    ScaleUniformSquare,
    /// The arc about an axis, drawn as a polyline of `steps` segments.
    RotationArc {
        /// The axis the arc turns about.
        axis: GizmoAxis,
        /// The number of segments of the polyline.
        steps: usize,
    },
    /// The camera-facing cross at the origin.
    OriginDot,
}

/// An element to draw and the colour to draw it in.
#[derive(Debug, Clone, Copy, PartialEq)]
pub struct DrawItem<C> {
    /// What to draw.
    pub element: GizmoElement,
    /// The colour to draw it in.
    pub color: C,
}

/// The axis lines that respond to an interaction with a handle: the axis of
/// an axis handle or a rotation ring, the two axes that span a plane, all
/// three for uniform scale.
pub open spec fn axes_involved_of(op: GizmoOperation, axis: GizmoAxis) -> Seq<GizmoAxis> {
    match op {
        GizmoOperation::TranslateAxis | GizmoOperation::ScaleAxis | GizmoOperation::Rotate => seq![
            axis,
        ],
        GizmoOperation::TranslatePlane => seq![plane_axes_of(axis).0, plane_axes_of(axis).1],
        GizmoOperation::ScaleUniform => seq![GizmoAxis::X, GizmoAxis::Y, GizmoAxis::Z],
    }
}

/// Which axis lines should visually respond to a handle interaction.
pub fn axes_involved(op: GizmoOperation, axis: GizmoAxis) -> (axes: Vec<GizmoAxis>)
    ensures
        axes@ == axes_involved_of(op, axis),
{
    match op {
        GizmoOperation::TranslateAxis | GizmoOperation::ScaleAxis => vec![axis],
        GizmoOperation::TranslatePlane => {
            let (a, b) = plane_axes(axis);
            vec![a, b]
        },
        GizmoOperation::Rotate => vec![axis],
        GizmoOperation::ScaleUniform => vec![GizmoAxis::X, GizmoAxis::Y, GizmoAxis::Z],
    }
}

/// Whether a list of axes holds an axis.
pub fn axes_contain(axes: &Vec<GizmoAxis>, axis: GizmoAxis) -> (found: bool)
    ensures
        found == axes@.contains(axis),
{
    let mut i: usize = 0;
    while i < axes.len()
        invariant
            i <= axes.len(),
            forall|j: int| 0 <= j < i ==> axes@[j] != axis,
        decreases axes.len() - i,
    {
        if axes[i] == axis {
            return true;
        }
        i += 1;
    }
    false
}

impl<V: Copy, Q: Copy, S: Copy> TransformGizmoState<V, Q, S> {
    /// Whether the handle of an operation on an axis of a target is being
    /// dragged.
    pub open spec fn handle_active(self, target: u64, op: GizmoOperation, axis: GizmoAxis) -> bool {
        self.drag matches Some(drag) && drag.target == target && drag.op == op && drag.axis == axis
    }

    /// Whether the handle of an operation on an axis of a target is under
    /// the cursor.
    pub open spec fn handle_hovered(self, target: u64, op: GizmoOperation, axis: GizmoAxis) -> bool {
        self.active_target == Some(target) && self.hovered_axis == Some(axis) && self.hovered_op
            == Some(op)
    }

    /// Whether the uniform scale handle of a target is being dragged.
    pub open spec fn uniform_active(self, target: u64) -> bool {
        self.drag matches Some(drag) && drag.target == target && drag.op
            == GizmoOperation::ScaleUniform
    }

    /// Whether the uniform scale handle of a target is under the cursor.
    pub open spec fn uniform_hovered(self, target: u64) -> bool {
        self.active_target == Some(target) && self.hovered_op == Some(GizmoOperation::ScaleUniform)
    }

    /// The axis lines of a target that respond to the hovered handle.
    pub open spec fn hover_axes_of(self, target: u64) -> Seq<GizmoAxis> {
        if self.active_target == Some(target) && self.hovered_axis is Some && self.hovered_op
            is Some {
            axes_involved_of(self.hovered_op.unwrap(), self.hovered_axis.unwrap())
        } else {
            Seq::empty()
        }
    }

    /// The axis lines of a target that respond to the dragged handle.
    pub open spec fn active_axes_of(self, target: u64) -> Seq<GizmoAxis> {
        match self.drag {
            Some(drag) if drag.target == target => axes_involved_of(drag.op, drag.axis),
            _ => Seq::empty(),
        }
    }

    /// The interaction state in which the line of an axis is shown.
    pub open spec fn axis_line_state(self, target: u64, axis: GizmoAxis) -> InteractionState {
        InteractionState::resolve(
            self.active_axes_of(target).contains(axis),
            self.hover_axes_of(target).contains(axis),
        )
    }

    /// The interaction state in which a handle is shown.
    pub open spec fn handle_state(self, target: u64, op: GizmoOperation, axis: GizmoAxis) -> InteractionState {
        if op == GizmoOperation::ScaleUniform {
            InteractionState::resolve(self.uniform_active(target), self.uniform_hovered(target))
        } else {
            InteractionState::resolve(
                self.handle_active(target, op, axis),
                self.handle_hovered(target, op, axis),
            )
        }
    }
}

impl<S: Copy, C: Copy> TransformGizmoStyle<S, C> {
    /// The colours of the handle of an operation on an axis.
    pub open spec fn handle_colors(self, op: GizmoOperation, axis: GizmoAxis) -> GizmoStateColors<C> {
        match op {
            GizmoOperation::TranslateAxis | GizmoOperation::TranslatePlane => self.translate.axis(
                axis,
            ),
            GizmoOperation::ScaleAxis => self.scale.axis(axis),
            GizmoOperation::Rotate => self.rotate.axis(axis),
            GizmoOperation::ScaleUniform => self.scale_uniform_colors,
        }
    }

    /// The number of segments of the polyline of a rotation arc: the
    /// configured number, but at least two.
    pub open spec fn arc_steps_of(self) -> usize {
        if self.rotation_arc_segments < 2 {
            2
        } else {
            self.rotation_arc_segments
        }
    }

    /// Returns the number of segments of the polyline of a rotation arc.
    pub fn arc_steps(&self) -> (steps: usize)
        ensures
            steps == self.arc_steps_of(),
            steps >= 2,
    {
        if self.rotation_arc_segments < 2 {
            2
        } else {
            self.rotation_arc_segments
        }
    }
}

/// The element that shows the handle of an operation on an axis.
pub open spec fn handle_element<S: Copy, C: Copy>(
    style: TransformGizmoStyle<S, C>,
    op: GizmoOperation,
    axis: GizmoAxis,
) -> GizmoElement {
    match op {
        GizmoOperation::TranslateAxis => GizmoElement::TranslateCone(axis),
        GizmoOperation::TranslatePlane => GizmoElement::TranslatePlane(axis),
        GizmoOperation::ScaleAxis => GizmoElement::ScaleCube(axis),
        GizmoOperation::Rotate => GizmoElement::RotationArc { axis, steps: style.arc_steps_of() },
        GizmoOperation::ScaleUniform => GizmoElement::ScaleUniformSquare,
    }
}

/// The item of one handle: none if the style switches the handle off.
pub open spec fn handle_item<V: Copy, Q: Copy, S: Copy, C: Copy>(
    state: TransformGizmoState<V, Q, S>,
    style: TransformGizmoStyle<S, C>,
    target: u64,
    op: GizmoOperation,
    axis: GizmoAxis,
) -> Seq<DrawItem<C>> {
    if style.handle_enabled(op, axis) {
        seq![
            DrawItem {
                element: handle_element(style, op, axis),
                color: style.handle_colors(op, axis).for_state(state.handle_state(target, op, axis)),
            },
        ]
    } else {
        Seq::empty()
    }
}

/// The items of the per-axis handles of one operation, for X, Y and Z.
pub open spec fn handle_items<V: Copy, Q: Copy, S: Copy, C: Copy>(
    state: TransformGizmoState<V, Q, S>,
    style: TransformGizmoStyle<S, C>,
    target: u64,
    op: GizmoOperation,
) -> Seq<DrawItem<C>> {
    handle_item(state, style, target, op, GizmoAxis::X) + handle_item(
        state,
        style,
        target,
        op,
        GizmoAxis::Y,
    ) + handle_item(state, style, target, op, GizmoAxis::Z)
}

/// The item of the line of one axis.
pub open spec fn axis_line_item<V: Copy, Q: Copy, S: Copy, C: Copy>(
    state: TransformGizmoState<V, Q, S>,
    style: TransformGizmoStyle<S, C>,
    target: u64,
    axis: GizmoAxis,
) -> DrawItem<C> {
    DrawItem {
        element: GizmoElement::AxisLine(axis),
        color: style.axis_lines.axis(axis).for_state(state.axis_line_state(target, axis)),
    }
}

/// The items of the axis lines: all three, or none if the style hides them.
pub open spec fn axis_line_items<V: Copy, Q: Copy, S: Copy, C: Copy>(
    state: TransformGizmoState<V, Q, S>,
    style: TransformGizmoStyle<S, C>,
    target: u64,
) -> Seq<DrawItem<C>> {
    if style.show_axis_lines {
        seq![
            axis_line_item(state, style, target, GizmoAxis::X),
            axis_line_item(state, style, target, GizmoAxis::Y),
            axis_line_item(state, style, target, GizmoAxis::Z),
        ]
    } else {
        Seq::empty()
    }
}

/// The item of the origin marker: none if the style hides it.
pub open spec fn origin_dot_items<S: Copy, C: Copy>(style: TransformGizmoStyle<S, C>) -> Seq<
    DrawItem<C>,
> {
    if style.show_origin_dot {
        seq![DrawItem { element: GizmoElement::OriginDot, color: style.origin_dot_color }]
    } else {
        Seq::empty()
    }
}

/// Everything that is drawn for one target, in drawing order: the axis
/// lines, the translation cones, the translation planes, the scale cubes,
/// the uniform scale square, the rotation arcs, the origin marker.
pub open spec fn draw_plan<V: Copy, Q: Copy, S: Copy, C: Copy>(
    state: TransformGizmoState<V, Q, S>,
    style: TransformGizmoStyle<S, C>,
    target: u64,
) -> Seq<DrawItem<C>> {
    axis_line_items(state, style, target) + handle_items(
        state,
        style,
        target,
        GizmoOperation::TranslateAxis,
    ) + handle_items(state, style, target, GizmoOperation::TranslatePlane) + handle_items(
        state,
        style,
        target,
        GizmoOperation::ScaleAxis,
    ) + handle_item(state, style, target, GizmoOperation::ScaleUniform, GizmoAxis::X)
        + handle_items(state, style, target, GizmoOperation::Rotate) + origin_dot_items(style)
}

/// Determine whether a given (operation, axis) is currently active (being dragged).
pub fn is_axis_active<V: Copy, Q: Copy, S: Copy>(
    state: &TransformGizmoState<V, Q, S>,
    target: u64,
    op: GizmoOperation,
    axis: GizmoAxis,
) -> (active: bool)
    ensures
        active == state.handle_active(target, op, axis),
{
    if let Some(drag) = &state.drag {
        drag.target == target && drag.op == op && drag.axis == axis
    } else {
        false
    }
}

/// Determine whether a given (operation, axis) is currently under the cursor.
pub fn is_axis_hovered<V: Copy, Q: Copy, S: Copy>(
    state: &TransformGizmoState<V, Q, S>,
    target: u64,
    op: GizmoOperation,
    axis: GizmoAxis,
) -> (hovered: bool)
    ensures
        hovered == state.handle_hovered(target, op, axis),
{
    let on_target = match state.active_target {
        Some(t) => t == target,
        None => false,
    };
    let on_axis = match state.hovered_axis {
        Some(a) => a == axis,
        None => false,
    };
    let on_op = match state.hovered_op {
        Some(o) => o == op,
        None => false,
    };
    on_target && on_axis && on_op
}

/// Lookup the display color for a gizmo element based on the style and state.
pub fn gizmo_display_color<V: Copy, Q: Copy, S: Copy, C: Copy>(
    state: &TransformGizmoState<V, Q, S>,
    target: u64,
    group: &AxisColors<C>,
    axis: GizmoAxis,
    op: GizmoOperation,
) -> (color: C)
    ensures
        color == group.axis(axis).for_state(
            InteractionState::resolve(
                state.handle_active(target, op, axis),
                state.handle_hovered(target, op, axis),
            ),
        ),
{
    let colors = group.for_axis(axis);
    let is_active = is_axis_active(state, target, op, axis);
    let is_hovered = is_axis_hovered(state, target, op, axis);
    colors.select(is_active, is_hovered)
}

/// The display color of the uniform scale handle of a target.
pub fn uniform_scale_color<V: Copy, Q: Copy, S: Copy, C: Copy>(
    state: &TransformGizmoState<V, Q, S>,
    style: &TransformGizmoStyle<S, C>,
    target: u64,
) -> (color: C)
    ensures
        color == style.scale_uniform_colors.for_state(
            InteractionState::resolve(state.uniform_active(target), state.uniform_hovered(target)),
        ),
{
    let is_active = match &state.drag {
        Some(drag) => drag.target == target && drag.op == GizmoOperation::ScaleUniform,
        None => false,
    };
    let on_target = match state.active_target {
        Some(t) => t == target,
        None => false,
    };
    let on_op = match state.hovered_op {
        Some(o) => o == GizmoOperation::ScaleUniform,
        None => false,
    };
    style.scale_uniform_colors.select(is_active, on_target && on_op)
}

/// The axis lines of a target that respond to the hovered handle.
pub fn hover_axes<V: Copy, Q: Copy, S: Copy>(state: &TransformGizmoState<V, Q, S>, target: u64) -> (axes:
    Vec<GizmoAxis>)
    ensures
        axes@ == state.hover_axes_of(target),
{
    match (state.active_target, state.hovered_axis, state.hovered_op) {
        (Some(t), Some(axis), Some(op)) => {
            if t == target {
                axes_involved(op, axis)
            } else {
                Vec::new()
            }
        },
        _ => Vec::new(),
    }
}

/// The axis lines of a target that respond to the dragged handle.
pub fn active_axes<V: Copy, Q: Copy, S: Copy>(state: &TransformGizmoState<V, Q, S>, target: u64) -> (axes:
    Vec<GizmoAxis>)
    ensures
        axes@ == state.active_axes_of(target),
{
    if let Some(drag) = &state.drag {
        if drag.target == target {
            axes_involved(drag.op, drag.axis)
        } else {
            Vec::new()
        }
    } else {
        Vec::new()
    }
}

/// The display color of the line of an axis, given the axes that respond
/// to the hovered and to the dragged handle.
pub fn axis_line_color<S: Copy, C: Copy>(
    style: &TransformGizmoStyle<S, C>,
    axis: GizmoAxis,
    hover_axes: &Vec<GizmoAxis>,
    active_axes: &Vec<GizmoAxis>,
) -> (color: C)
    ensures
        color == style.axis_lines.axis(axis).for_state(
            InteractionState::resolve(active_axes@.contains(axis), hover_axes@.contains(axis)),
        ),
{
    let colors = style.axis_lines.for_axis(axis);
    let is_active = axes_contain(active_axes, axis);
    let is_hovered = axes_contain(hover_axes, axis);
    colors.select(is_active, is_hovered)
}

/// The display color of the handle of an operation on an axis.
pub fn handle_color<V: Copy, Q: Copy, S: Copy, C: Copy>(
    state: &TransformGizmoState<V, Q, S>,
    style: &TransformGizmoStyle<S, C>,
    target: u64,
    op: GizmoOperation,
    axis: GizmoAxis,
) -> (color: C)
    ensures
        color == style.handle_colors(op, axis).for_state(state.handle_state(target, op, axis)),
{
    match op {
        GizmoOperation::TranslateAxis | GizmoOperation::TranslatePlane => gizmo_display_color(
            state,
            target,
            &style.translate,
            axis,
            op,
        ),
        GizmoOperation::ScaleAxis => gizmo_display_color(state, target, &style.scale, axis, op),
        GizmoOperation::Rotate => gizmo_display_color(state, target, &style.rotate, axis, op),
        GizmoOperation::ScaleUniform => uniform_scale_color(state, style, target),
    }
}

/// Appends the item of one handle to a plan, if the style shows the handle.
fn push_handle<V: Copy, Q: Copy, S: Copy, C: Copy>(
    plan: &mut Vec<DrawItem<C>>,
    state: &TransformGizmoState<V, Q, S>,
    style: &TransformGizmoStyle<S, C>,
    target: u64,
    op: GizmoOperation,
    axis: GizmoAxis,
)
    ensures
        final(plan)@ == old(plan)@ + handle_item(*state, *style, target, op, axis),
{
    if style.is_handle_enabled(op, axis) {
        let element = match op {
            GizmoOperation::TranslateAxis => GizmoElement::TranslateCone(axis),
            GizmoOperation::TranslatePlane => GizmoElement::TranslatePlane(axis),
            GizmoOperation::ScaleAxis => GizmoElement::ScaleCube(axis),
            GizmoOperation::Rotate => GizmoElement::RotationArc { axis, steps: style.arc_steps() },
            GizmoOperation::ScaleUniform => GizmoElement::ScaleUniformSquare,
        };
        let color = handle_color(state, style, target, op, axis);
        plan.push(DrawItem { element, color });
    }
}

/// Appends the items of the per-axis handles of one operation to a plan.
fn push_handles<V: Copy, Q: Copy, S: Copy, C: Copy>(
    plan: &mut Vec<DrawItem<C>>,
    state: &TransformGizmoState<V, Q, S>,
    style: &TransformGizmoStyle<S, C>,
    target: u64,
    op: GizmoOperation,
)
    ensures
        final(plan)@ == old(plan)@ + handle_items(*state, *style, target, op),
{
    push_handle(plan, state, style, target, op, GizmoAxis::X);
    push_handle(plan, state, style, target, op, GizmoAxis::Y);
    push_handle(plan, state, style, target, op, GizmoAxis::Z);
}

/// Appends the items of the axis lines to a plan.
fn push_axis_lines<V: Copy, Q: Copy, S: Copy, C: Copy>(
    plan: &mut Vec<DrawItem<C>>,
    state: &TransformGizmoState<V, Q, S>,
    style: &TransformGizmoStyle<S, C>,
    target: u64,
)
    ensures
        final(plan)@ == old(plan)@ + axis_line_items(*state, *style, target),
{
    if style.show_axis_lines {
        let hovered = hover_axes(state, target);
        let active = active_axes(state, target);
        plan.push(
            DrawItem {
                element: GizmoElement::AxisLine(GizmoAxis::X),
                color: axis_line_color(style, GizmoAxis::X, &hovered, &active),
            },
        );
        plan.push(
            DrawItem {
                element: GizmoElement::AxisLine(GizmoAxis::Y),
                color: axis_line_color(style, GizmoAxis::Y, &hovered, &active),
            },
        );
        plan.push(
            DrawItem {
                element: GizmoElement::AxisLine(GizmoAxis::Z),
                color: axis_line_color(style, GizmoAxis::Z, &hovered, &active),
            },
        );
    }
}

/// Plan the drawing of the transform gizmo at one target.
///
/// Returns the elements to draw, in drawing order, each with its colour.
pub fn draw_gizmo<V: Copy, Q: Copy, S: Copy, C: Copy>(
    state: &TransformGizmoState<V, Q, S>,
    style: &TransformGizmoStyle<S, C>,
    target: u64,
) -> (plan: Vec<DrawItem<C>>)
    ensures
        plan@ == draw_plan(*state, *style, target),
{
    let mut plan: Vec<DrawItem<C>> = Vec::new();
    push_axis_lines(&mut plan, state, style, target);
    push_handles(&mut plan, state, style, target, GizmoOperation::TranslateAxis);
    push_handles(&mut plan, state, style, target, GizmoOperation::TranslatePlane);
    push_handles(&mut plan, state, style, target, GizmoOperation::ScaleAxis);
    push_handle(&mut plan, state, style, target, GizmoOperation::ScaleUniform, GizmoAxis::X);
    push_handles(&mut plan, state, style, target, GizmoOperation::Rotate);
    if style.show_origin_dot {
        plan.push(DrawItem { element: GizmoElement::OriginDot, color: style.origin_dot_color });
    }
    plan
}

/// On which side of the centre a corner of the cube lies along x, y and z:
/// corner `i` lies on the positive side of x, y, z exactly where bit 2, 1, 0
/// of `i` is set.
pub open spec fn corner_sides(i: int) -> (bool, bool, bool) {
    ((i / 4) % 2 == 1, (i / 2) % 2 == 1, i % 2 == 1)
}

/// The number of coordinates in which two corners of the cube lie on
/// different sides.
pub open spec fn corner_distance(a: int, b: int) -> int {
    (if corner_sides(a).0 != corner_sides(b).0 {
        1int
    } else {
        0int
    }) + (if corner_sides(a).1 != corner_sides(b).1 {
        1int
    } else {
        0int
    }) + (if corner_sides(a).2 != corner_sides(b).2 {
        1int
    } else {
        0int
    })
}

/// Whether two corners, the lower index first, are joined by an edge of the
/// cube: they differ in exactly one coordinate.
pub open spec fn is_cube_edge(a: int, b: int) -> bool {
    0 <= a < b < CUBE_CORNERS && corner_distance(a, b) == 1
}

/// The edges of the cube as pairs of corner indices, in ascending order.
pub open spec fn cube_edges_of() -> Seq<(usize, usize)> {
    seq![
        (0usize, 1usize),
        (0usize, 2usize),
        (0usize, 4usize),
        (1usize, 3usize),
        (1usize, 5usize),
        (2usize, 3usize),
        (2usize, 6usize),
        (3usize, 7usize),
        (4usize, 5usize),
        (4usize, 6usize),
        (5usize, 7usize),
        (6usize, 7usize),
    ]
}

/// Returns the signs of the coordinates of a corner of a cube centred at
/// the origin, each `-1` or `1`.
pub fn cube_corner(i: usize) -> (signs: (i8, i8, i8))
    ensures
        signs.0 == (if corner_sides(i as int).0 {
            1int
        } else {
            -1int
        }),
        signs.1 == (if corner_sides(i as int).1 {
            1int
        } else {
            -1int
        }),
        signs.2 == (if corner_sides(i as int).2 {
            1int
        } else {
            -1int
        }),
{
    let x: i8 = if (i / 4) % 2 == 1 {
        1
    } else {
        -1
    };
    let y: i8 = if (i / 2) % 2 == 1 {
        1
    } else {
        -1
    };
    let z: i8 = if i % 2 == 1 {
        1
    } else {
        -1
    };
    (x, y, z)
}

/// Returns the twelve edges of a cube as pairs of corner indices.
pub fn cube_edges() -> (edges: Vec<(usize, usize)>)
    ensures
        edges@ == cube_edges_of(),
        edges@.len() == CUBE_EDGES,
{
    vec![
        (0, 1),
        (0, 2),
        (0, 4),
        (1, 3),
        (1, 5),
        (2, 3),
        (2, 6),
        (3, 7),
        (4, 5),
        (4, 6),
        (5, 7),
        (6, 7),
    ]
}

/// The edge list holds exactly the pairs of corners that differ in one
/// coordinate, each once.
pub proof fn lemma_cube_edges_are_the_neighbors()
    ensures
        cube_edges_of().len() == CUBE_EDGES,
        forall|k: int|
            0 <= k < cube_edges_of().len() ==> is_cube_edge(
                (#[trigger] cube_edges_of()[k]).0 as int,
                cube_edges_of()[k].1 as int,
            ),
        forall|a: int, b: int| #[trigger]
            is_cube_edge(a, b) ==> exists|k: int|
                0 <= k < cube_edges_of().len() && cube_edges_of()[k] == (a as usize, b as usize),
        forall|j: int, k: int|
            0 <= j < k < cube_edges_of().len() ==> cube_edges_of()[j] != cube_edges_of()[k],
{
    let e = cube_edges_of();
    assert forall|a: int, b: int| #[trigger] is_cube_edge(a, b) implies exists|k: int|
        0 <= k < e.len() && e[k] == (a as usize, b as usize) by {
        if a == 0 && b == 1 {
            assert(e[0] == (a as usize, b as usize));
        } else if a == 0 && b == 2 {
            assert(e[1] == (a as usize, b as usize));
        } else if a == 0 && b == 4 {
            assert(e[2] == (a as usize, b as usize));
        } else if a == 1 && b == 3 {
            assert(e[3] == (a as usize, b as usize));
        } else if a == 1 && b == 5 {
            assert(e[4] == (a as usize, b as usize));
        } else if a == 2 && b == 3 {
            assert(e[5] == (a as usize, b as usize));
        } else if a == 2 && b == 6 {
            assert(e[6] == (a as usize, b as usize));
        } else if a == 3 && b == 7 {
            assert(e[7] == (a as usize, b as usize));
        } else if a == 4 && b == 5 {
            assert(e[8] == (a as usize, b as usize));
        } else if a == 4 && b == 6 {
            assert(e[9] == (a as usize, b as usize));
        } else if a == 5 && b == 7 {
            assert(e[10] == (a as usize, b as usize));
        } else if a == 6 && b == 7 {
            assert(e[11] == (a as usize, b as usize));
        } else {
            assert(!is_cube_edge(a, b));
        }
    }
}

} // verus!
