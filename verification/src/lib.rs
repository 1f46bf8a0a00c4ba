//! An interactive 3D scene of cylinders stretched between fixed points.
//!
//! This crate holds the verified core of the viewer: exact integer vector
//! arithmetic, the axis-convention conversion between z-up and y-up
//! coordinates, the closed-form cylinder placement (midpoint, squared
//! height, axis), the keyboard-to-motion decision tables, the fixed scene
//! data, and the picking log messages. Rendering, input polling and picking
//! belong to the host engine and stay in the unverified shell around this
//! library; it hands the shell exact integer values which the shell turns
//! into floating-point transforms.

pub mod camera;
pub mod convert;
pub mod cylinder;
pub mod picking;
pub mod scene;
pub mod vec3;
