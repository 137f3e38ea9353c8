//! A windowed-rendering lifecycle manager for a textured full-viewport quad.
//!
//! The library models, and verifies, the logic that drives a single static
//! texture onto a full-viewport quad: the quad geometry and its triangle-strip
//! index order, the identity transform applied by the shader program, the
//! texture decoded from PNG bytes and stored bottom-to-top, the provisioning
//! of a context/surface pair with an API fallback, the event-loop driver that
//! owns at most one live session, and the host-toolkit embedding adapter.
//! The platform calls themselves (window system, GL driver, GPU uploads) are
//! carried out by a thin unverified binding around this crate.

pub mod driver;
pub mod error;
pub mod geometry;
pub mod gl;
pub mod gl_area;
pub mod mat4;
pub mod texture;
