//! Application and event core of a small real-time rendering engine.
//!
//! The crate owns the frame loop, converts platform input into a typed event
//! stream, routes events through an ordered stack of layers, and drives the
//! per-frame update/render cycle over a shared mutable context.  Everything
//! that touches the platform (windowing, GPU, trigonometry on floats) is
//! reached through collaborator traits; the decision logic here is verified.
//!
//! All quantities that the problem domain measures with real numbers
//! (coordinates, angles, colors) are carried as fixed-point integers with
//! three decimal digits: the value `1000` stands for one whole unit.

pub mod event;
pub mod modifiers;
pub mod fixed;
pub mod dispatch;
pub mod layer;
pub mod imgui;
pub mod camera;
pub mod state;
pub mod shader;
pub mod mesh;
pub mod assets;
pub mod transform;
pub mod renderable;
pub mod entity;
pub mod buffer;
pub mod light;
pub mod window;
pub mod renderer;
pub mod context;
pub mod application;
