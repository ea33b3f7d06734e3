//! Frame-by-frame decisions of a small 3D scene: a camera that orbits the
//! origin while a steering key is held, and a pointer that is followed from
//! the window down to the ground plane, where a marker is drawn or a tree is
//! planted.
//!
//! The engine owns the scene, the geometry and the drawing. This crate holds
//! what is decided each frame, and proves that each decision is the one its
//! contract states.

pub mod controls;
pub mod orbit;
pub mod pick;
