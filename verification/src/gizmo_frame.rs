//! Gizmo coordinate frame handling.
//!
//! A frame holds the origin of a target and the direction of each gizmo axis,
//! once for translation and rotation handles, which follow the selected
//! coordinate space, and once for scale handles, which always follow the
//! target's own rotation.

use crate::types::{GizmoAxis, TransformGizmoSpace};
use vstd::prelude::*;

verus! {

/// Which flavor of axes to request from a gizmo frame.
#[derive(Debug, Clone, Copy, PartialEq, Eq, Structural)]
pub enum AxisKind {
    /// Axes of the translation handles.
    Translate,
    /// Axes of the rotation handles.
    Rotate,
    /// Axes of the scale handles.
    Scale,
}

/// One direction for each of the three axes.
#[derive(Debug, Clone, Copy, PartialEq)]
pub struct AxisDirs<V> {
    /// Direction of the X axis.
    pub x: V,
    /// Direction of the Y axis.
    pub y: V,
    /// Direction of the Z axis.
    pub z: V,
}

impl<V: Copy> AxisDirs<V> {
    /// The direction of one axis.
    pub open spec fn dir(self, axis: GizmoAxis) -> V {
        match axis {
            GizmoAxis::X => self.x,
            GizmoAxis::Y => self.y,
            GizmoAxis::Z => self.z,
        }
    }

    /// Returns the direction of one axis.
    pub fn get(&self, axis: GizmoAxis) -> (d: V)
        ensures
            d == self.dir(axis),
    {
        match axis {
            GizmoAxis::X => self.x,
            GizmoAxis::Y => self.y,
            GizmoAxis::Z => self.z,
        }
    }
}

/// The direction a frame must hold for an axis of a kind of handle: the
/// world axis for translation and rotation in world space, the target's
/// own axis for them in local space, and the target's own axis for scale
/// in either space.
pub open spec fn basis_dir<V: Copy>(
    world: AxisDirs<V>,
    local: AxisDirs<V>,
    space: TransformGizmoSpace,
    axis: GizmoAxis,
    kind: AxisKind,
) -> V {
    match kind {
        AxisKind::Scale => local.dir(axis),
        AxisKind::Translate | AxisKind::Rotate => match space {
            TransformGizmoSpace::World => world.dir(axis),
            TransformGizmoSpace::Local => local.dir(axis),
        },
    }
}

/// Precomputed basis vectors for a gizmo target, respecting world/local space.
#[derive(Debug, Clone, Copy, PartialEq)]
pub struct GizmoFrame<V> {
    /// World-space position of the target.
    pub origin: V,
    /// Direction of the X axis for translation and rotation handles.
    pub tx_x: V,
    /// Direction of the Y axis for translation and rotation handles.
    pub tx_y: V,
    /// Direction of the Z axis for translation and rotation handles.
    pub tx_z: V,
    /// Direction of the X axis for scale handles.
    pub sc_x: V,
    /// Direction of the Y axis for scale handles.
    pub sc_y: V,
    /// Direction of the Z axis for scale handles.
    pub sc_z: V,
}

impl<V: Copy> GizmoFrame<V> {
    /// The frame of a target at `origin` whose own axes point along `local`,
    /// in a world whose axes point along `world`.
    pub open spec fn build(
        origin: V,
        world: AxisDirs<V>,
        local: AxisDirs<V>,
        space: TransformGizmoSpace,
    ) -> Self {
        let tx = match space {
            TransformGizmoSpace::World => world,
            TransformGizmoSpace::Local => local,
        };
        GizmoFrame {
            origin,
            tx_x: tx.x,
            tx_y: tx.y,
            tx_z: tx.z,
            sc_x: local.x,
            sc_y: local.y,
            sc_z: local.z,
        }
    }

    /// The direction the frame holds for an axis of a kind of handle.
    pub open spec fn dir(self, axis: GizmoAxis, kind: AxisKind) -> V {
        match kind {
            AxisKind::Translate | AxisKind::Rotate => match axis {
                GizmoAxis::X => self.tx_x,
                GizmoAxis::Y => self.tx_y,
                GizmoAxis::Z => self.tx_z,
            },
            AxisKind::Scale => match axis {
                GizmoAxis::X => self.sc_x,
                GizmoAxis::Y => self.sc_y,
                GizmoAxis::Z => self.sc_z,
            },
        }
    }

    /// A built frame keeps the origin, holds the world axes for translation
    /// and rotation in world space and the target's own axes in local space,
    /// and holds the target's own axes for scale whatever the space.
    pub proof fn lemma_build_basis(
        origin: V,
        world: AxisDirs<V>,
        local: AxisDirs<V>,
        space: TransformGizmoSpace,
        axis: GizmoAxis,
        kind: AxisKind,
    )
        ensures
            Self::build(origin, world, local, space).origin == origin,
            Self::build(origin, world, local, space).dir(axis, kind) == basis_dir(
                world,
                local,
                space,
                axis,
                kind,
            ),
            kind == AxisKind::Scale ==> Self::build(origin, world, local, space).dir(axis, kind)
                == local.dir(axis),
            kind != AxisKind::Scale && space == TransformGizmoSpace::World ==> Self::build(
                origin,
                world,
                local,
                space,
            ).dir(axis, kind) == world.dir(axis),
            kind != AxisKind::Scale && space == TransformGizmoSpace::Local ==> Self::build(
                origin,
                world,
                local,
                space,
            ).dir(axis, kind) == local.dir(axis),
    {
    }

    /// Builds the frame of a target from its world position, the directions
    /// of the world axes and the directions of the target's own axes (the
    /// world axes turned by the target's rotation).
    pub fn new(origin: V, world: AxisDirs<V>, local: AxisDirs<V>, space: TransformGizmoSpace) -> (frame:
        Self)
        ensures
            frame == Self::build(origin, world, local, space),
            frame.origin == origin,
            forall|axis: GizmoAxis, kind: AxisKind| #[trigger]
                frame.dir(axis, kind) == basis_dir(world, local, space, axis, kind),
    {
        // Translation / rotation may be world or local.
        let tx = match space {
            TransformGizmoSpace::World => world,
            TransformGizmoSpace::Local => local,
        };
        // Scale is always local to avoid surprising behaviour.
        GizmoFrame {
            origin,
            tx_x: tx.x,
            tx_y: tx.y,
            tx_z: tx.z,
            sc_x: local.x,
            sc_y: local.y,
            sc_z: local.z,
        }
    }

    /// Returns the direction of an axis for a kind of handle.
    pub fn axis_dir(&self, axis: GizmoAxis, kind: AxisKind) -> (d: V)
        ensures
            d == self.dir(axis, kind),
    {
        match kind {
            AxisKind::Translate | AxisKind::Rotate => match axis {
                GizmoAxis::X => self.tx_x,
                GizmoAxis::Y => self.tx_y,
                GizmoAxis::Z => self.tx_z,
            },
            AxisKind::Scale => match axis {
                GizmoAxis::X => self.sc_x,
                GizmoAxis::Y => self.sc_y,
                GizmoAxis::Z => self.sc_z,
            },
        }
    }
}

/// The two axes that span the plane whose normal is `normal_axis`, the
/// earlier axis first.
pub open spec fn plane_axes_of(normal_axis: GizmoAxis) -> (GizmoAxis, GizmoAxis) {
    match normal_axis {
        GizmoAxis::X => (GizmoAxis::Y, GizmoAxis::Z),
        GizmoAxis::Y => (GizmoAxis::X, GizmoAxis::Z),
        GizmoAxis::Z => (GizmoAxis::X, GizmoAxis::Y),
    }
}

/// Axes that bound the plane whose normal is `normal_axis`.
pub fn plane_axes(normal_axis: GizmoAxis) -> (axes: (GizmoAxis, GizmoAxis))
    ensures
        axes == plane_axes_of(normal_axis),
        axes.0 != normal_axis,
        axes.1 != normal_axis,
        axes.0 != axes.1,
{
    match normal_axis {
        GizmoAxis::X => (GizmoAxis::Y, GizmoAxis::Z),
        GizmoAxis::Y => (GizmoAxis::X, GizmoAxis::Z),
        GizmoAxis::Z => (GizmoAxis::X, GizmoAxis::Y),
    }
}

/// The two axes between which the rotation arc of `axis` is drawn, in
/// cyclic order after `axis`.
pub open spec fn arc_neighbors_of(axis: GizmoAxis) -> (GizmoAxis, GizmoAxis) {
    match axis {
        GizmoAxis::X => (GizmoAxis::Y, GizmoAxis::Z),
        GizmoAxis::Y => (GizmoAxis::Z, GizmoAxis::X),
        GizmoAxis::Z => (GizmoAxis::X, GizmoAxis::Y),
    }
}

/// The two neighbouring axes of a rotation arc: the arc of an axis lies in
/// the plane of the other two, centred on their bisector.
pub fn arc_neighbors(axis: GizmoAxis) -> (axes: (GizmoAxis, GizmoAxis))
    ensures
        axes == arc_neighbors_of(axis),
        axes.0 != axis,
        axes.1 != axis,
        axes.0 != axes.1,
{
    match axis {
        GizmoAxis::X => (GizmoAxis::Y, GizmoAxis::Z),
        GizmoAxis::Y => (GizmoAxis::Z, GizmoAxis::X),
        GizmoAxis::Z => (GizmoAxis::X, GizmoAxis::Y),
    }
}

} // verus!
