//! Interaction core of a 3D transform gizmo: handle selection, the drag
//! state machine and the draw plan, independent of any rendering backend.

pub mod draw;
pub mod gizmo_frame;
pub mod interaction;
pub mod picking;
pub mod types;
