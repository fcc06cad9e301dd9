//! Core value types of the gizmo.
//!
//! The types are generic over the numeric types of the host: a scalar `S`,
//! a vector `V`, a rotation `Q` and a colour `C`. The interaction core never
//! looks inside such a value; it only stores it and hands it back.

use vstd::prelude::*;

verus! {

/// Which transform component the gizmo is currently editing for UI purposes.
///
/// This is mostly useful for external UI to display the current mode.
/// Interaction logic uses [`GizmoOperation`] internally.
#[derive(Debug, Clone, Copy, PartialEq, Eq, Structural)]
pub enum TransformGizmoMode {
    /// Translation mode - move targets along axes or planes.
    Translate,
    /// Rotation mode - rotate targets around axes.
    Rotate,
    /// Scale mode - scale targets along axes or uniformly.
    Scale,
}

impl TransformGizmoMode {
    /// The display name of the mode.
    pub open spec fn name(self) -> Seq<char> {
        match self {
            TransformGizmoMode::Translate => "Translate"@,
            TransformGizmoMode::Rotate => "Rotate"@,
            TransformGizmoMode::Scale => "Scale"@,
        }
    }

    /// The display name of the mode as an owned string.
    pub fn to_string(&self) -> (s: String)
        ensures
            s@ == self.name(),
    {
        match self {
            TransformGizmoMode::Translate => "Translate".to_owned(),
            TransformGizmoMode::Rotate => "Rotate".to_owned(),
            TransformGizmoMode::Scale => "Scale".to_owned(),
        }
    }
}

impl Default for TransformGizmoMode {
    fn default() -> (mode: Self)
        ensures
            mode == TransformGizmoMode::Translate,
    {
        TransformGizmoMode::Translate
    }
}

/// Coordinate space used by the gizmo axes.
#[derive(Debug, Clone, Copy, PartialEq, Eq, Structural)]
pub enum TransformGizmoSpace {
    /// Axes aligned to world coordinates (global X/Y/Z).
    World,
    /// Axes aligned to the target's local rotation.
    Local,
}

impl TransformGizmoSpace {
    /// The display name of the space.
    pub open spec fn name(self) -> Seq<char> {
        match self {
            TransformGizmoSpace::World => "World"@,
            TransformGizmoSpace::Local => "Local"@,
        }
    }

    /// The display name of the space as an owned string.
    pub fn to_string(&self) -> (s: String)
        ensures
            s@ == self.name(),
    {
        match self {
            TransformGizmoSpace::World => "World".to_owned(),
            TransformGizmoSpace::Local => "Local".to_owned(),
        }
    }
}

impl Default for TransformGizmoSpace {
    fn default() -> (space: Self)
        ensures
            space == TransformGizmoSpace::Local,
    {
        TransformGizmoSpace::Local
    }
}

/// Identifies which axis (X, Y, or Z) a gizmo handle operates on.
#[derive(Debug, Clone, Copy, PartialEq, Eq, Structural)]
pub enum GizmoAxis {
    /// The X axis (typically red).
    X,
    /// The Y axis (typically green).
    Y,
    /// The Z axis (typically blue).
    Z,
}

impl GizmoAxis {
    /// The integer components of the unit vector along the axis.
    pub open spec fn unit(self) -> (int, int, int) {
        match self {
            GizmoAxis::X => (1, 0, 0),
            GizmoAxis::Y => (0, 1, 0),
            GizmoAxis::Z => (0, 0, 1),
        }
    }

    /// Converts the axis to the components of its unit vector.
    pub fn to_vec3(self) -> (v: (i8, i8, i8))
        ensures
            (v.0 as int, v.1 as int, v.2 as int) == self.unit(),
    {
        match self {
            GizmoAxis::X => (1, 0, 0),
            GizmoAxis::Y => (0, 1, 0),
            GizmoAxis::Z => (0, 0, 1),
        }
    }
}

/// The type of operation being performed by the gizmo.
///
/// This distinguishes between different manipulation modes like axis-constrained
/// translation vs planar translation, or per-axis scaling vs uniform scaling.
#[derive(Debug, Clone, Copy, PartialEq, Eq, Structural)]
pub enum GizmoOperation {
    /// Translation constrained to a single axis.
    TranslateAxis,
    /// Translation constrained to a plane (two axes).
    TranslatePlane,
    /// Rotation around a single axis.
    Rotate,
    /// Scaling along a single axis.
    ScaleAxis,
    /// Uniform scaling on all axes simultaneously.
    ScaleUniform,
}

/// Information about an active drag operation.
///
/// This struct captures all the state needed to compute transform deltas
/// while the user is dragging a gizmo handle.
#[derive(Debug, Clone, Copy, PartialEq)]
pub struct TransformGizmoDrag<V, Q, S> {
    /// The target being manipulated.
    pub target: u64,
    /// The type of operation being performed.
    pub op: GizmoOperation,
    /// The primary axis involved in the operation.
    pub axis: GizmoAxis,
    /// The world-space origin of the gizmo when the drag started.
    pub origin: V,
    /// The direction of the primary axis in world space.
    pub axis_dir: V,
    /// Normal of the interaction plane used for mouse projection.
    pub plane_normal: V,
    /// Origin point of the interaction plane.
    pub plane_origin: V,
    /// First direction vector for planar operations.
    pub plane_dir1: V,
    /// Second direction vector for planar operations.
    pub plane_dir2: V,
    /// First axis for planar snapping.
    pub plane_axis1: GizmoAxis,
    /// Second axis for planar snapping.
    pub plane_axis2: GizmoAxis,
    /// The target's translation when the drag started.
    pub start_translation: V,
    /// The target's rotation when the drag started.
    pub start_rotation: Q,
    /// The target's scale when the drag started.
    pub start_scale: V,
    /// Initial parameter value (distance or angle) at drag start.
    pub start_t: S,
    /// Initial vector from origin to hit point (for planar/rotation ops).
    pub start_vector: V,
}

/// Global state for the transform gizmo system.
///
/// This tracks the current mode, which target is selected, what's
/// being hovered, and any active drag operation. At most one drag exists
/// at a time.
#[derive(Debug, Clone, Copy, PartialEq)]
pub struct TransformGizmoState<V, Q, S> {
    /// Current editing mode (Translate/Rotate/Scale) for UI display.
    pub mode: TransformGizmoMode,
    /// Coordinate space for gizmo axes (World or Local).
    pub space: TransformGizmoSpace,
    /// The currently active target, if any.
    pub active_target: Option<u64>,
    /// The axis currently being hovered, if any.
    pub hovered_axis: Option<GizmoAxis>,
    /// The operation type currently being hovered, if any.
    pub hovered_op: Option<GizmoOperation>,
    /// Active drag state while the primary button is held, if any.
    pub drag: Option<TransformGizmoDrag<V, Q, S>>,
}

impl<V, Q, S> TransformGizmoState<V, Q, S> {
    /// The state before any interaction: translate mode, local space,
    /// nothing active, hovered or dragged.
    pub open spec fn initial() -> Self {
        TransformGizmoState {
            mode: TransformGizmoMode::Translate,
            space: TransformGizmoSpace::Local,
            active_target: None,
            hovered_axis: None,
            hovered_op: None,
            drag: None,
        }
    }
}

impl<V, Q, S> Default for TransformGizmoState<V, Q, S> {
    fn default() -> (state: Self)
        ensures
            state == Self::initial(),
    {
        TransformGizmoState {
            mode: TransformGizmoMode::Translate,
            space: TransformGizmoSpace::Local,
            active_target: None,
            hovered_axis: None,
            hovered_op: None,
            drag: None,
        }
    }
}

/// Which of the three interaction states an element is shown in.
#[derive(Debug, Clone, Copy, PartialEq, Eq, Structural)]
pub enum InteractionState {
    /// The element is not being interacted with.
    Idle,
    /// The cursor is over the element.
    Hover,
    /// The element is being dragged.
    Active,
}

impl InteractionState {
    /// Active wins over hovered, hovered over idle.
    pub open spec fn resolve(active: bool, hovered: bool) -> InteractionState {
        if active {
            InteractionState::Active
        } else if hovered {
            InteractionState::Hover
        } else {
            InteractionState::Idle
        }
    }
}

/// Colors for a single gizmo element in different interaction states.
///
/// Each gizmo handle can have different colors for idle, hovered, and
/// actively dragged states to provide visual feedback.
#[derive(Debug, Clone, Copy, PartialEq)]
pub struct GizmoStateColors<C> {
    /// Color when the element is not being interacted with.
    pub idle: C,
    /// Color when the cursor is hovering over the element.
    pub hover: C,
    /// Color when the element is being actively dragged.
    pub active: C,
}

impl<C: Copy> GizmoStateColors<C> {
    /// Creates a new color set with the specified colors.
    pub fn new(idle: C, hover: C, active: C) -> (colors: Self)
        ensures
            colors == (GizmoStateColors { idle, hover, active }),
    {
        GizmoStateColors { idle, hover, active }
    }

    /// The color shown in a given interaction state.
    pub open spec fn for_state(self, state: InteractionState) -> C {
        match state {
            InteractionState::Active => self.active,
            InteractionState::Hover => self.hover,
            InteractionState::Idle => self.idle,
        }
    }

    /// The color of an element that is or is not dragged and hovered:
    /// the active color if it is dragged, else the hover color if it is
    /// hovered, else the idle color.
    pub fn select(&self, active: bool, hovered: bool) -> (color: C)
        ensures
            color == self.for_state(InteractionState::resolve(active, hovered)),
    {
        if active {
            self.active
        } else if hovered {
            self.hover
        } else {
            self.idle
        }
    }
}

/// Colors for each axis (X, Y, Z) of a gizmo handle group.
///
/// This allows customizing the appearance of translation, rotation, and
/// scale handles independently for each axis.
#[derive(Debug, Clone, Copy, PartialEq)]
pub struct AxisColors<C> {
    /// Colors for the X axis (typically red tones).
    pub x: GizmoStateColors<C>,
    /// Colors for the Y axis (typically green tones).
    pub y: GizmoStateColors<C>,
    /// Colors for the Z axis (typically blue tones).
    pub z: GizmoStateColors<C>,
}

impl<C: Copy> AxisColors<C> {
    /// Creates axis colors where all three axes use the same color set.
    pub fn uniform(colors: GizmoStateColors<C>) -> (group: Self)
        ensures
            group == (AxisColors { x: colors, y: colors, z: colors }),
    {
        AxisColors { x: colors, y: colors, z: colors }
    }

    /// Creates axis colors with distinct colors for each axis.
    pub fn new(x: GizmoStateColors<C>, y: GizmoStateColors<C>, z: GizmoStateColors<C>) -> (group:
        Self)
        ensures
            group == (AxisColors { x, y, z }),
    {
        AxisColors { x, y, z }
    }

    /// The colors of one axis.
    pub open spec fn axis(self, axis: GizmoAxis) -> GizmoStateColors<C> {
        match axis {
            GizmoAxis::X => self.x,
            GizmoAxis::Y => self.y,
            GizmoAxis::Z => self.z,
        }
    }

    /// Returns the colors for a specific axis.
    pub fn for_axis(&self, axis: GizmoAxis) -> (colors: &GizmoStateColors<C>)
        ensures
            *colors == self.axis(axis),
    {
        match axis {
            GizmoAxis::X => &self.x,
            GizmoAxis::Y => &self.y,
            GizmoAxis::Z => &self.z,
        }
    }
}

/// Per-axis enable/disable toggles for gizmo handles.
///
/// Use this to selectively show or hide individual axis handles.
#[derive(Debug, Clone, Copy, PartialEq, Eq, Structural)]
pub struct AxisToggles {
    /// Whether the X axis handle is enabled.
    pub x: bool,
    /// Whether the Y axis handle is enabled.
    pub y: bool,
    /// Whether the Z axis handle is enabled.
    pub z: bool,
}

impl AxisToggles {
    /// Creates toggles with all axes enabled.
    pub fn all() -> (toggles: Self)
        ensures
            toggles == (AxisToggles { x: true, y: true, z: true }),
    {
        AxisToggles { x: true, y: true, z: true }
    }

    /// Creates toggles with all axes disabled.
    pub fn none() -> (toggles: Self)
        ensures
            toggles == (AxisToggles { x: false, y: false, z: false }),
    {
        AxisToggles { x: false, y: false, z: false }
    }

    /// Whether a specific axis is enabled.
    pub open spec fn is_enabled(self, axis: GizmoAxis) -> bool {
        match axis {
            GizmoAxis::X => self.x,
            GizmoAxis::Y => self.y,
            GizmoAxis::Z => self.z,
        }
    }

    /// Returns whether a specific axis is enabled.
    pub fn enabled(&self, axis: GizmoAxis) -> (on: bool)
        ensures
            on == self.is_enabled(axis),
    {
        match axis {
            GizmoAxis::X => self.x,
            GizmoAxis::Y => self.y,
            GizmoAxis::Z => self.z,
        }
    }
}

impl Default for AxisToggles {
    fn default() -> (toggles: Self)
        ensures
            toggles == (AxisToggles { x: false, y: false, z: false }),
    {
        AxisToggles { x: false, y: false, z: false }
    }
}

/// Optional per-axis snapping increments.
///
/// When set, transform operations will snap to multiples of the specified
/// values. Use `None` for an axis to disable snapping on that axis.
#[derive(Debug, Clone, Copy, PartialEq)]
pub struct AxisSnap<S> {
    /// Snap increment for the X axis, or `None` to disable.
    pub x: Option<S>,
    /// Snap increment for the Y axis, or `None` to disable.
    pub y: Option<S>,
    /// Snap increment for the Z axis, or `None` to disable.
    pub z: Option<S>,
}

impl<S: Copy> AxisSnap<S> {
    /// Creates a snap configuration with no snapping on any axis.
    pub fn none() -> (snap: Self)
        ensures
            snap == (AxisSnap::<S> { x: None, y: None, z: None }),
    {
        AxisSnap { x: None, y: None, z: None }
    }

    /// Creates a snap configuration with the same increment on all axes.
    pub fn uniform(increment: S) -> (snap: Self)
        ensures
            snap == (AxisSnap { x: Some(increment), y: Some(increment), z: Some(increment) }),
    {
        AxisSnap { x: Some(increment), y: Some(increment), z: Some(increment) }
    }

    /// The snap increment of one axis.
    pub open spec fn increment(self, axis: GizmoAxis) -> Option<S> {
        match axis {
            GizmoAxis::X => self.x,
            GizmoAxis::Y => self.y,
            GizmoAxis::Z => self.z,
        }
    }

    /// Returns the snap increment for a specific axis.
    pub fn get(&self, axis: GizmoAxis) -> (step: Option<S>)
        ensures
            step == self.increment(axis),
    {
        match axis {
            GizmoAxis::X => self.x,
            GizmoAxis::Y => self.y,
            GizmoAxis::Z => self.z,
        }
    }
}

impl<S> Default for AxisSnap<S> {
    fn default() -> (snap: Self)
        ensures
            snap == (AxisSnap::<S> { x: None, y: None, z: None }),
    {
        AxisSnap { x: None, y: None, z: None }
    }
}

/// Snapping configuration for all transform operations.
///
/// This controls snap-to-grid behavior for translation, rotation,
/// and scaling operations.
#[derive(Debug, Clone, Copy, PartialEq)]
pub struct TransformGizmoSnap<S> {
    /// Snap increments for translation (in world units).
    pub translate: AxisSnap<S>,
    /// Snap increments for rotation (in radians).
    pub rotate: AxisSnap<S>,
    /// Snap increments for scale (as multipliers).
    pub scale: AxisSnap<S>,
}

impl<S> Default for TransformGizmoSnap<S> {
    fn default() -> (snap: Self)
        ensures
            snap.translate == (AxisSnap::<S> { x: None, y: None, z: None }),
            snap.rotate == (AxisSnap::<S> { x: None, y: None, z: None }),
            snap.scale == (AxisSnap::<S> { x: None, y: None, z: None }),
    {
        TransformGizmoSnap {
            translate: AxisSnap { x: None, y: None, z: None },
            rotate: AxisSnap { x: None, y: None, z: None },
            scale: AxisSnap { x: None, y: None, z: None },
        }
    }
}

/// Visual style and sizing configuration for the transform gizmo.
///
/// This controls all aspects of gizmo appearance including colors,
/// sizes, and which elements are visible. Modify this at runtime to customize
/// the gizmo appearance.
#[derive(Debug, Clone, Copy, PartialEq)]
pub struct TransformGizmoStyle<S, C> {
    // === Visibility toggles ===
    /// Whether to draw the primary XYZ axis lines.
    pub show_axis_lines: bool,
    /// Whether to show translation handles.
    pub show_translate: bool,
    /// Which axes have translation handles enabled.
    pub translate_axes: AxisToggles,
    /// Whether to show rotation handles.
    pub show_rotate: bool,
    /// Which axes have rotation handles enabled.
    pub rotate_axes: AxisToggles,
    /// Whether to show scale handles.
    pub show_scale: bool,
    /// Which axes have scale handles enabled.
    pub scale_axes: AxisToggles,
    // === General styling ===
    /// Line width for gizmo rendering (in pixels).
    pub line_width: S,
    /// Depth bias to draw gizmos on top of regular geometry.
    /// Negative values bring the gizmo closer to the camera.
    pub depth_bias: S,
    /// Length of each axis line (in world units).
    pub axis_length: S,
    // === Colors ===
    /// Colors for the main axis lines.
    pub axis_lines: AxisColors<C>,
    /// Colors for translation handles.
    pub translate: AxisColors<C>,
    /// Colors for rotation handles.
    pub rotate: AxisColors<C>,
    /// Colors for scale handles.
    pub scale: AxisColors<C>,
    // === Translation cone handles ===
    /// Length of the translation cone from base to tip.
    pub translate_cone_length: S,
    /// Radius of the translation cone at its base.
    pub translate_cone_radius: S,
    /// Hit detection radius for translation cones.
    pub translate_hit_radius: S,
    // === Scale cube handles ===
    /// Edge length of the scale cube handles.
    pub scale_cube_size: S,
    /// Position of scale cubes as a fraction of axis_length.
    pub scale_cube_offset: S,
    /// Hit detection radius for scale cubes.
    pub scale_hit_radius: S,
    // === Rotation arc handles ===
    /// Angular extent of each rotation arc (in degrees).
    pub rotation_arc_degrees: S,
    /// Number of line segments per rotation arc.
    pub rotation_arc_segments: usize,
    /// Visual thickness of rotation arcs.
    pub rotation_arc_thickness: S,
    /// Hit detection thickness for rotation arcs.
    pub rotation_hit_thickness: S,
    // === Hit detection ===
    /// Bounding sphere radius for early-out hit testing.
    pub bounds_radius: S,
    // === Planar translation handles ===
    /// Whether to show planar translation handles (XY, XZ, YZ planes).
    pub show_translate_planes: bool,
    /// Side length of planar translation rectangles.
    pub translate_plane_size: S,
    /// Offset of plane handles from the origin along each axis.
    pub translate_plane_offset: S,
    /// Hit detection padding for planar handles.
    pub translate_plane_hit_thickness: S,
    // === Uniform scale handle ===
    /// Whether to show the uniform scale handle at the origin.
    pub show_scale_uniform: bool,
    /// Side length of the uniform scale square.
    pub scale_uniform_size: S,
    /// Hit detection radius for the uniform scale handle.
    pub scale_uniform_hit_radius: S,
    /// Colors for the uniform scale handle.
    pub scale_uniform_colors: GizmoStateColors<C>,
    // === Origin marker ===
    /// Whether to draw the origin marker.
    pub show_origin_dot: bool,
    /// Size of the origin marker.
    pub origin_dot_size: S,
    /// Color of the origin marker.
    pub origin_dot_color: C,
}

impl<S, C> TransformGizmoStyle<S, C> {
    /// Whether the handle of an operation on an axis is shown and can be
    /// picked. A plane is named by its normal axis; the uniform scale
    /// handle has no axis of its own, so `axis` is not looked at for it.
    pub open spec fn handle_enabled(self, op: GizmoOperation, axis: GizmoAxis) -> bool {
        match op {
            GizmoOperation::TranslateAxis => self.show_translate && self.translate_axes.is_enabled(
                axis,
            ),
            GizmoOperation::TranslatePlane => self.show_translate && self.show_translate_planes
                && self.translate_axes.is_enabled(axis),
            GizmoOperation::Rotate => self.show_rotate && self.rotate_axes.is_enabled(axis),
            GizmoOperation::ScaleAxis => self.show_scale && self.scale_axes.is_enabled(axis),
            GizmoOperation::ScaleUniform => self.show_scale && self.show_scale_uniform,
        }
    }

    /// Whether the handle of an operation on an axis is shown and can be
    /// picked.
    pub fn is_handle_enabled(&self, op: GizmoOperation, axis: GizmoAxis) -> (on: bool)
        ensures
            on == self.handle_enabled(op, axis),
    {
        match op {
            GizmoOperation::TranslateAxis => self.show_translate && self.translate_axes.enabled(
                axis,
            ),
            GizmoOperation::TranslatePlane => self.show_translate && self.show_translate_planes
                && self.translate_axes.enabled(axis),
            GizmoOperation::Rotate => self.show_rotate && self.rotate_axes.enabled(axis),
            GizmoOperation::ScaleAxis => self.show_scale && self.scale_axes.enabled(axis),
            GizmoOperation::ScaleUniform => self.show_scale && self.show_scale_uniform,
        }
    }
}

} // verus!
