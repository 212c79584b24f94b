//! A 2D instanced-shape renderer model driven by a rigid-body simulation.
//!
//! The library owns the logic of the simulation-to-render loop: the body
//! arena and its generation-checked handles, the ordered instance store and
//! its packed per-instance records, the frame resources (surface
//! configuration, render-target descriptions, uniform buffers) and the
//! per-frame state machine with its pacing, resize and surface-error rules.
//! Scalars are carried as 32-bit words (see [`scalar`]); the floating-point
//! work itself — integration, trigonometry, division — is performed by the
//! physics and graphics engines at the boundary, which exchange plain words
//! with the library.

pub mod scalar;
pub mod geometry;
pub mod errors;
pub mod physics;
pub mod instance;
pub mod uniforms;
pub mod frame;
pub mod looper;
