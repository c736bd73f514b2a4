//! Core of a draw pipeline for a stateful, immediate-mode graphics device.
//!
//! A draw request bundles vertex sources, an index source, a compiled program,
//! named uniform values and a render-state configuration.  The core turns the
//! request into the minimal, correctly ordered sequence of device commands:
//! every state change is diffed against a mirrored copy of the device state and
//! emitted only when it would change something, binding capacity (texture
//! units, uniform-buffer binding points) is allocated per call under hard
//! limits, and resources that the device will read asynchronously receive
//! fences.
//!
//! The device itself is a collaborator: the core appends the commands it would
//! issue to a command log ([`context::Context::commands`]) and keeps the mirror
//! ([`context::DeviceState`]) in step with what those commands do.

pub mod bitsfield;
pub mod buffer;
pub mod commands;
pub mod context;
pub mod draw;
pub mod error;
pub mod fences;
pub mod index;
pub mod params;
pub mod program;
pub mod queries;
pub mod sync;
pub mod texture_units;
pub mod uniforms;
pub mod vertex;
