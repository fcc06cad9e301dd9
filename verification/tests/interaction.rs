use bevy_transform_tools::gizmo_frame::{AxisDirs, GizmoFrame};
use bevy_transform_tools::interaction::{
    apply_hover, begin_drag, drag_axis_vector, drag_gizmo, drag_plane, drag_plane_axes,
    drag_request, end_drag, start_parameter, start_vector, sync_active_target,
    update_hovered_axis, DragPlane, DragRequest, DragStart, DragUpdate, StartParameter,
    StartVector,
};
use bevy_transform_tools::picking::{AxisHits, HoverHit, TargetHits};
use bevy_transform_tools::types::{
    AxisColors, AxisSnap, AxisToggles, GizmoAxis, GizmoOperation, GizmoStateColors,
    TransformGizmoSnap, TransformGizmoSpace, TransformGizmoState, TransformGizmoStyle,
};

type Vec3 = [f32; 3];
type Quat = [f32; 4];
type State = TransformGizmoState<Vec3, Quat, f32>;

const OPS: [GizmoOperation; 5] = [
    GizmoOperation::TranslateAxis,
    GizmoOperation::TranslatePlane,
    GizmoOperation::Rotate,
    GizmoOperation::ScaleAxis,
    GizmoOperation::ScaleUniform,
];

const AXES: [GizmoAxis; 3] = [GizmoAxis::X, GizmoAxis::Y, GizmoAxis::Z];

fn style() -> TransformGizmoStyle<f32, u32> {
    let colors = AxisColors::uniform(GizmoStateColors::new(0u32, 1, 2));
    TransformGizmoStyle {
        show_axis_lines: true,
        show_translate: true,
        translate_axes: AxisToggles::all(),
        show_rotate: true,
        rotate_axes: AxisToggles::all(),
        show_scale: true,
        scale_axes: AxisToggles::all(),
        line_width: 4.0,
        depth_bias: -1.0,
        axis_length: 2.0,
        axis_lines: colors,
        translate: colors,
        rotate: colors,
        scale: colors,
        translate_cone_length: 0.4,
        translate_cone_radius: 0.12,
        translate_hit_radius: 0.36,
        scale_cube_size: 0.2,
        scale_cube_offset: 0.7,
        scale_hit_radius: 0.18,
        rotation_arc_degrees: 30.0,
        rotation_arc_segments: 20,
        rotation_arc_thickness: 0.05,
        rotation_hit_thickness: 0.25,
        bounds_radius: 2.6,
        show_translate_planes: true,
        translate_plane_size: 0.5,
        translate_plane_offset: 0.35,
        translate_plane_hit_thickness: 0.1,
        show_scale_uniform: true,
        scale_uniform_size: 0.27,
        scale_uniform_hit_radius: 0.35,
        scale_uniform_colors: GizmoStateColors::new(3, 4, 5),
        show_origin_dot: true,
        origin_dot_size: 0.1,
        origin_dot_color: 6,
    }
}

fn no_hits(target: u64, bounds: Option<u32>) -> TargetHits {
    TargetHits {
        target,
        bounds,
        translate: AxisHits::none(),
        scale: AxisHits::none(),
        rotate: AxisHits::none(),
        plane: AxisHits::none(),
        uniform: None,
    }
}

fn start(seed: f32) -> DragStart<Vec3, Quat, f32> {
    DragStart {
        origin: [seed, 0.0, 0.0],
        axis_dir: [1.0, 0.0, 0.0],
        plane_normal: [0.0, 0.0, 1.0],
        plane_origin: [seed, 0.0, 0.0],
        plane_dir1: [0.0, 1.0, 0.0],
        plane_dir2: [0.0, 0.0, 1.0],
        start_translation: [seed, 2.0, 3.0],
        start_rotation: [0.0, 0.0, 0.0, 1.0],
        start_scale: [1.0, 1.0, 1.0],
        start_t: 0.5 + seed,
        start_vector: [0.25, 0.0, 0.0],
    }
}

fn hovering(target: u64, op: GizmoOperation, axis: GizmoAxis) -> State {
    let mut state = State::default();
    state.active_target = Some(target);
    state.hovered_op = Some(op);
    state.hovered_axis = Some(axis);
    state
}

fn dragging(target: u64, op: GizmoOperation, axis: GizmoAxis) -> State {
    let mut state = hovering(target, op, axis);
    assert!(begin_drag(&mut state, true, Some(start(0.0))));
    state
}

#[test]
fn sync_makes_the_found_target_active() {
    let mut state = State::default();
    sync_active_target(&mut state, Some(11));
    assert_eq!(state.active_target, Some(11));
    sync_active_target(&mut state, Some(12));
    assert_eq!(state.active_target, Some(12));
}

#[test]
fn sync_without_a_marked_target_keeps_the_active_one() {
    let mut state = State::default();
    sync_active_target(&mut state, None);
    assert_eq!(state, State::default());
    state.active_target = Some(11);
    sync_active_target(&mut state, None);
    assert_eq!(state.active_target, Some(11));
}

#[test]
fn hover_sets_target_axis_and_operation() {
    let mut state = State::default();
    let mut hits = no_hits(21, Some(0));
    hits.rotate.z = Some(100);
    update_hovered_axis(&mut state, &style(), &vec![no_hits(20, Some(0)), hits]);
    assert_eq!(state.active_target, Some(21));
    assert_eq!(state.hovered_axis, Some(GizmoAxis::Z));
    assert_eq!(state.hovered_op, Some(GizmoOperation::Rotate));
    assert!(state.drag.is_none());
}

#[test]
fn hover_without_a_hit_clears_axis_and_operation_but_not_the_target() {
    let mut state = hovering(21, GizmoOperation::Rotate, GizmoAxis::Z);
    update_hovered_axis(&mut state, &style(), &vec![no_hits(20, Some(0))]);
    assert_eq!(state.active_target, Some(21));
    assert_eq!(state.hovered_axis, None);
    assert_eq!(state.hovered_op, None);
}

#[test]
fn hover_without_a_cursor_ray_clears_axis_and_operation() {
    let mut state = hovering(21, GizmoOperation::Rotate, GizmoAxis::Z);
    update_hovered_axis(&mut state, &style(), &vec![]);
    assert_eq!(state.active_target, Some(21));
    assert_eq!(state.hovered_axis, None);
    assert_eq!(state.hovered_op, None);
}

#[test]
fn hover_keeps_mode_and_space() {
    let mut state = State::default();
    state.space = TransformGizmoSpace::World;
    let mut hits = no_hits(21, Some(0));
    hits.uniform = Some(5);
    update_hovered_axis(&mut state, &style(), &vec![hits]);
    assert_eq!(state.space, TransformGizmoSpace::World);
    assert_eq!(state.mode, State::default().mode);
    assert_eq!(state.hovered_op, Some(GizmoOperation::ScaleUniform));
    assert_eq!(state.hovered_axis, Some(GizmoAxis::X));
}

#[test]
fn hover_is_skipped_while_dragging() {
    let mut state = dragging(21, GizmoOperation::TranslateAxis, GizmoAxis::X);
    let before = state;
    let mut hits = no_hits(30, Some(0));
    hits.rotate.z = Some(100);
    update_hovered_axis(&mut state, &style(), &vec![hits]);
    assert_eq!(state, before);
    update_hovered_axis(&mut state, &style(), &vec![]);
    assert_eq!(state, before);
    apply_hover(
        &mut state,
        Some(HoverHit { target: 30, op: GizmoOperation::Rotate, axis: GizmoAxis::Z, t: 1 }),
    );
    assert_eq!(state, before);
}

#[test]
fn apply_hover_stores_the_hit() {
    let mut state = State::default();
    apply_hover(
        &mut state,
        Some(HoverHit { target: 30, op: GizmoOperation::ScaleAxis, axis: GizmoAxis::Y, t: 1 }),
    );
    assert_eq!(state, hovering(30, GizmoOperation::ScaleAxis, GizmoAxis::Y));
    apply_hover(&mut state, None);
    assert_eq!(state.hovered_axis, None);
    assert_eq!(state.hovered_op, None);
    assert_eq!(state.active_target, Some(30));
}

#[test]
fn drag_request_names_the_hovered_handle() {
    let state = hovering(5, GizmoOperation::ScaleAxis, GizmoAxis::Y);
    assert_eq!(
        drag_request(&state, true),
        Some(DragRequest { target: 5, op: GizmoOperation::ScaleAxis, axis: GizmoAxis::Y })
    );
}

#[test]
fn no_drag_request_without_a_press() {
    let state = hovering(5, GizmoOperation::ScaleAxis, GizmoAxis::Y);
    assert_eq!(drag_request(&state, false), None);
}

#[test]
fn no_drag_request_without_hover_or_target() {
    let mut state = hovering(5, GizmoOperation::ScaleAxis, GizmoAxis::Y);
    state.hovered_axis = None;
    assert_eq!(drag_request(&state, true), None);
    let mut state = hovering(5, GizmoOperation::ScaleAxis, GizmoAxis::Y);
    state.hovered_op = None;
    assert_eq!(drag_request(&state, true), None);
    let mut state = hovering(5, GizmoOperation::ScaleAxis, GizmoAxis::Y);
    state.active_target = None;
    assert_eq!(drag_request(&state, true), None);
    assert_eq!(drag_request(&State::default(), true), None);
}

#[test]
fn no_drag_request_while_dragging() {
    let state = dragging(5, GizmoOperation::ScaleAxis, GizmoAxis::Y);
    assert_eq!(drag_request(&state, true), None);
}

#[test]
fn begin_drag_captures_the_snapshot() {
    let mut state = hovering(5, GizmoOperation::TranslateAxis, GizmoAxis::Z);
    let captured = start(1.0);
    assert!(begin_drag(&mut state, true, Some(captured)));
    let drag = state.drag.expect("a drag has begun");
    assert_eq!(drag.target, 5);
    assert_eq!(drag.op, GizmoOperation::TranslateAxis);
    assert_eq!(drag.axis, GizmoAxis::Z);
    assert_eq!(drag.origin, captured.origin);
    assert_eq!(drag.axis_dir, captured.axis_dir);
    assert_eq!(drag.plane_normal, captured.plane_normal);
    assert_eq!(drag.plane_origin, captured.plane_origin);
    assert_eq!(drag.plane_dir1, captured.plane_dir1);
    assert_eq!(drag.plane_dir2, captured.plane_dir2);
    assert_eq!(drag.plane_axis1, GizmoAxis::X);
    assert_eq!(drag.plane_axis2, GizmoAxis::Y);
    assert_eq!(drag.start_translation, [1.0, 2.0, 3.0]);
    assert_eq!(drag.start_rotation, captured.start_rotation);
    assert_eq!(drag.start_scale, captured.start_scale);
    assert_eq!(drag.start_t, 1.5);
    assert_eq!(drag.start_vector, captured.start_vector);
    // Hover and target stay as they were.
    assert_eq!(state.active_target, Some(5));
    assert_eq!(state.hovered_op, Some(GizmoOperation::TranslateAxis));
    assert_eq!(state.hovered_axis, Some(GizmoAxis::Z));
}

#[test]
fn begin_drag_on_a_plane_records_the_plane_axes() {
    let expected = [
        (GizmoAxis::X, (GizmoAxis::Y, GizmoAxis::Z)),
        (GizmoAxis::Y, (GizmoAxis::X, GizmoAxis::Z)),
        (GizmoAxis::Z, (GizmoAxis::X, GizmoAxis::Y)),
    ];
    for (normal, (a1, a2)) in expected {
        let state = dragging(5, GizmoOperation::TranslatePlane, normal);
        let drag = state.drag.expect("a drag has begun");
        assert_eq!((drag.plane_axis1, drag.plane_axis2), (a1, a2));
        assert_eq!(drag_plane_axes(GizmoOperation::TranslatePlane, normal), (a1, a2));
    }
}

#[test]
fn other_drags_record_x_and_y_as_plane_axes() {
    for op in OPS {
        if op == GizmoOperation::TranslatePlane {
            continue;
        }
        for axis in AXES {
            assert_eq!(drag_plane_axes(op, axis), (GizmoAxis::X, GizmoAxis::Y));
            let state = dragging(5, op, axis);
            let drag = state.drag.expect("a drag has begun");
            assert_eq!((drag.plane_axis1, drag.plane_axis2), (GizmoAxis::X, GizmoAxis::Y));
        }
    }
}

#[test]
fn begin_drag_without_a_press_does_nothing() {
    let mut state = hovering(5, GizmoOperation::Rotate, GizmoAxis::Y);
    let before = state;
    assert!(!begin_drag(&mut state, false, Some(start(0.0))));
    assert_eq!(state, before);
}

#[test]
fn begin_drag_without_captured_geometry_does_nothing() {
    let mut state = hovering(5, GizmoOperation::Rotate, GizmoAxis::Y);
    let before = state;
    assert!(!begin_drag(&mut state, true, None));
    assert_eq!(state, before);
}

#[test]
fn begin_drag_without_hover_does_nothing() {
    let mut state = State::default();
    state.active_target = Some(5);
    let before = state;
    assert!(!begin_drag(&mut state, true, Some(start(0.0))));
    assert_eq!(state, before);
}

#[test]
fn second_drag_is_rejected_and_the_first_is_kept() {
    let mut state = dragging(5, GizmoOperation::TranslateAxis, GizmoAxis::X);
    let before = state;
    // The same handle again.
    assert!(!begin_drag(&mut state, true, Some(start(9.0))));
    assert_eq!(state, before);
    // Another handle of another target.
    state.active_target = Some(6);
    state.hovered_op = Some(GizmoOperation::Rotate);
    state.hovered_axis = Some(GizmoAxis::Z);
    let before = state;
    assert!(!begin_drag(&mut state, true, Some(start(9.0))));
    assert_eq!(state, before);
    let drag = state.drag.expect("the first drag is kept");
    assert_eq!(drag.target, 5);
    assert_eq!(drag.op, GizmoOperation::TranslateAxis);
    assert_eq!(drag.axis, GizmoAxis::X);
    assert_eq!(drag.start_t, 0.5);
}

#[test]
fn end_drag_on_release_clears_the_drag_only() {
    let mut state = dragging(5, GizmoOperation::ScaleUniform, GizmoAxis::X);
    end_drag(&mut state, true);
    assert_eq!(state, hovering(5, GizmoOperation::ScaleUniform, GizmoAxis::X));
}

#[test]
fn end_drag_without_release_keeps_the_drag() {
    let mut state = dragging(5, GizmoOperation::ScaleUniform, GizmoAxis::X);
    let before = state;
    end_drag(&mut state, false);
    assert_eq!(state, before);
}

#[test]
fn end_drag_when_idle_does_nothing() {
    let mut state = hovering(5, GizmoOperation::ScaleUniform, GizmoAxis::X);
    let before = state;
    end_drag(&mut state, true);
    assert_eq!(state, before);
}

#[test]
fn a_drag_can_begin_again_after_release() {
    let mut state = dragging(5, GizmoOperation::Rotate, GizmoAxis::Y);
    end_drag(&mut state, true);
    assert!(begin_drag(&mut state, true, Some(start(2.0))));
    assert_eq!(state.drag.expect("a drag has begun").start_t, 2.5);
}

fn snap() -> TransformGizmoSnap<f32> {
    TransformGizmoSnap {
        translate: AxisSnap { x: Some(0.5), y: None, z: Some(0.25) },
        rotate: AxisSnap { x: None, y: Some(0.1), z: None },
        scale: AxisSnap { x: Some(2.0), y: Some(3.0), z: None },
    }
}

#[test]
fn no_update_without_a_drag() {
    let state = hovering(5, GizmoOperation::Rotate, GizmoAxis::Y);
    assert_eq!(drag_gizmo(&state, &snap(), true), None);
    assert_eq!(drag_gizmo(&state, &snap(), false), None);
}

#[test]
fn no_update_while_the_button_is_up() {
    let state = dragging(5, GizmoOperation::Rotate, GizmoAxis::Y);
    assert_eq!(drag_gizmo(&state, &snap(), false), None);
}

#[test]
fn translate_axis_snaps_by_its_own_axis() {
    let state = dragging(5, GizmoOperation::TranslateAxis, GizmoAxis::X);
    assert_eq!(
        drag_gizmo(&state, &snap(), true),
        Some(DragUpdate::TranslateAxis { step: Some(0.5) })
    );
    let state = dragging(5, GizmoOperation::TranslateAxis, GizmoAxis::Y);
    assert_eq!(drag_gizmo(&state, &snap(), true), Some(DragUpdate::TranslateAxis { step: None }));
}

#[test]
fn translate_plane_snaps_by_the_two_plane_axes() {
    let state = dragging(5, GizmoOperation::TranslatePlane, GizmoAxis::Y);
    assert_eq!(
        drag_gizmo(&state, &snap(), true),
        Some(DragUpdate::TranslatePlane { step1: Some(0.5), step2: Some(0.25) })
    );
    let state = dragging(5, GizmoOperation::TranslatePlane, GizmoAxis::X);
    assert_eq!(
        drag_gizmo(&state, &snap(), true),
        Some(DragUpdate::TranslatePlane { step1: None, step2: Some(0.25) })
    );
}

#[test]
fn scale_axis_snaps_by_its_own_axis() {
    let state = dragging(5, GizmoOperation::ScaleAxis, GizmoAxis::Y);
    assert_eq!(drag_gizmo(&state, &snap(), true), Some(DragUpdate::ScaleAxis { step: Some(3.0) }));
    let state = dragging(5, GizmoOperation::ScaleAxis, GizmoAxis::Z);
    assert_eq!(drag_gizmo(&state, &snap(), true), Some(DragUpdate::ScaleAxis { step: None }));
}

#[test]
fn scale_uniform_snaps_by_the_x_axis() {
    let state = dragging(5, GizmoOperation::ScaleUniform, GizmoAxis::X);
    assert_eq!(
        drag_gizmo(&state, &snap(), true),
        Some(DragUpdate::ScaleUniform { step: Some(2.0) })
    );
}

#[test]
fn rotate_snaps_by_its_own_axis() {
    let state = dragging(5, GizmoOperation::Rotate, GizmoAxis::Y);
    assert_eq!(drag_gizmo(&state, &snap(), true), Some(DragUpdate::Rotate { step: Some(0.1) }));
    let state = dragging(5, GizmoOperation::Rotate, GizmoAxis::Z);
    assert_eq!(drag_gizmo(&state, &snap(), true), Some(DragUpdate::Rotate { step: None }));
}

#[test]
fn without_snap_config_no_drag_snaps() {
    let none = TransformGizmoSnap::<f32>::default();
    let state = dragging(5, GizmoOperation::TranslateAxis, GizmoAxis::X);
    assert_eq!(drag_gizmo(&state, &none, true), Some(DragUpdate::TranslateAxis { step: None }));
    let state = dragging(5, GizmoOperation::TranslatePlane, GizmoAxis::Z);
    assert_eq!(
        drag_gizmo(&state, &none, true),
        Some(DragUpdate::TranslatePlane { step1: None, step2: None })
    );
}

#[test]
fn drag_gizmo_does_not_change_the_drag() {
    let state = dragging(5, GizmoOperation::Rotate, GizmoAxis::Y);
    let before = state;
    let _ = drag_gizmo(&state, &snap(), true);
    assert_eq!(state, before);
}

#[test]
fn drag_planes_by_operation() {
    assert_eq!(drag_plane(GizmoOperation::Rotate), DragPlane::AcrossAxis);
    assert_eq!(drag_plane(GizmoOperation::TranslatePlane), DragPlane::AcrossAxis);
    assert_eq!(drag_plane(GizmoOperation::TranslateAxis), DragPlane::AlongAxis);
    assert_eq!(drag_plane(GizmoOperation::ScaleAxis), DragPlane::AlongAxis);
    assert_eq!(drag_plane(GizmoOperation::ScaleUniform), DragPlane::AlongView);
}

#[test]
fn start_parameters_by_operation() {
    assert_eq!(start_parameter(GizmoOperation::TranslateAxis), StartParameter::AxisDistance);
    assert_eq!(start_parameter(GizmoOperation::ScaleAxis), StartParameter::AxisDistance);
    assert_eq!(start_parameter(GizmoOperation::Rotate), StartParameter::Angle);
    assert_eq!(start_parameter(GizmoOperation::TranslatePlane), StartParameter::Zero);
    assert_eq!(start_parameter(GizmoOperation::ScaleUniform), StartParameter::Distance);
}

#[test]
fn start_vectors_by_operation() {
    assert_eq!(start_vector(GizmoOperation::TranslatePlane), StartVector::InPlane);
    assert_eq!(start_vector(GizmoOperation::Rotate), StartVector::ToHit);
    assert_eq!(start_vector(GizmoOperation::TranslateAxis), StartVector::Zero);
    assert_eq!(start_vector(GizmoOperation::ScaleAxis), StartVector::Zero);
    assert_eq!(start_vector(GizmoOperation::ScaleUniform), StartVector::Zero);
}

#[test]
fn drag_axis_vector_comes_from_the_matching_axes() {
    let world = AxisDirs { x: [1.0, 0.0, 0.0], y: [0.0, 1.0, 0.0], z: [0.0, 0.0, 1.0] };
    let local = AxisDirs { x: [0.0, 1.0, 0.0], y: [-1.0, 0.0, 0.0], z: [0.0, 0.0, 1.0] };
    let forward = [0.0, 0.0, -1.0];
    let frame = GizmoFrame::new([0.0; 3], world, local, TransformGizmoSpace::World);
    for axis in AXES {
        assert_eq!(
            drag_axis_vector(&frame, GizmoOperation::TranslateAxis, axis, forward),
            world.get(axis)
        );
        assert_eq!(
            drag_axis_vector(&frame, GizmoOperation::TranslatePlane, axis, forward),
            world.get(axis)
        );
        assert_eq!(drag_axis_vector(&frame, GizmoOperation::Rotate, axis, forward), world.get(axis));
        assert_eq!(
            drag_axis_vector(&frame, GizmoOperation::ScaleAxis, axis, forward),
            local.get(axis)
        );
        assert_eq!(drag_axis_vector(&frame, GizmoOperation::ScaleUniform, axis, forward), forward);
    }
}
