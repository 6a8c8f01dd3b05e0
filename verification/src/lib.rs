//! A camera rig for strategy games: a rig that pans and turns over the
//! ground, a camera that hangs from it and zooms and pitches, smoothed
//! motion toward pending targets, and a follow mode that ties the rig to a
//! moving entity.
//!
//! All quantities are fixed-point integers (see `fixed`). The host owns the
//! orientations as quaternions: it hands the rig the directions that depend
//! on them (`Bearings`) and turns the angles of the rig into rotations.
//!
//! A host runs a frame in four steps. It finds the camera among the children
//! of the rig (`topology::camera_child`) and reports a rig without one. It
//! reads the input (`input::read_input`). It asks the rig at which angles it
//! needs the orientations evaluated (`CameraRig::bearing_angles`) and
//! evaluates them. It runs the frame (`CameraRig::update`) and shows the
//! transforms that come back.

pub mod board;
pub mod config;
pub mod events;
pub mod fixed;
pub mod follow;
pub mod input;
pub mod integrator;
pub mod laws;
pub mod rig;
pub mod solver;
pub mod topology;
pub mod transform;
pub mod vector;

pub use config::{Affine, KeyCode, KeyboardConf, MouseButton, MouseConf};
pub use follow::{CameraRigFollow, Followable};
pub use input::InputSnapshot;
pub use rig::CameraRig;
pub use topology::RigError;
pub use transform::{BearingAngles, Bearings, RigidTransform};
pub use vector::Vec3;
