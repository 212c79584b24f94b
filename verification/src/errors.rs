//! The error taxonomy of the render loop.
//!
//! Each error names the recovery the loop owes it: an unresolved handle is
//! skipped for the frame, a zero-area resize is ignored, a lost or outdated
//! surface is reconfigured and retried, a timeout skips one frame, and an
//! out-of-memory surface or a failed shader build ends the loop.

use vstd::prelude::*;

verus! {

/// Failure of the simulation table: a handle that does not resolve.
#[derive(Clone, Copy, PartialEq, Eq, Structural, Debug)]
pub enum PhysicsError {
    /// The handle was never assigned, or its body was removed.
    InvalidHandle,
    /// A collision shape had an invalid parameter, such as a radius that is
    /// not a positive finite value.
    InvalidShape,
}

/// Failure of a surface reconfiguration.
#[derive(Clone, Copy, PartialEq, Eq, Structural, Debug)]
pub enum ConfigError {
    /// A requested dimension was zero; the prior configuration stands.
    InvalidSurfaceSize,
}

/// Failure reported when acquiring the next presentable surface image.
#[derive(Clone, Copy, PartialEq, Eq, Structural, Debug)]
pub enum SurfaceError {
    /// The surface was lost and its targets must be rebuilt.
    Lost,
    /// The surface no longer matches the window and must be reconfigured.
    Outdated,
    /// No image became available in time; the frame is skipped.
    Timeout,
    /// The device is out of memory; the loop must terminate.
    OutOfMemory,
}

/// How severe an error of the loop is.
#[derive(Clone, Copy, PartialEq, Eq, Structural, Debug)]
pub enum Severity {
    /// Recovered within the loop: skip the piece of work, or rebuild the
    /// targets, and go on.
    Recoverable,
    /// Transient: skip the current frame and go on unchanged.
    Transient,
    /// Fatal: release resources and end the loop.
    Fatal,
}

/// Any error the render loop can meet.
#[derive(Clone, Copy, PartialEq, Eq, Structural, Debug)]
pub enum RenderError {
    /// A simulation handle did not resolve.
    Physics(PhysicsError),
    /// A reconfiguration was rejected.
    Config(ConfigError),
    /// Acquiring a surface image failed.
    Surface(SurfaceError),
    /// The shader source did not build at startup.
    ShaderCompileFailure,
}

/// The severity a surface acquisition error has.
pub open spec fn spec_surface_severity(e: SurfaceError) -> Severity {
    match e {
        SurfaceError::Lost => Severity::Recoverable,
        SurfaceError::Outdated => Severity::Recoverable,
        SurfaceError::Timeout => Severity::Transient,
        SurfaceError::OutOfMemory => Severity::Fatal,
    }
}

/// The severity an error of the loop has.
pub open spec fn spec_severity(e: RenderError) -> Severity {
    match e {
        RenderError::Physics(_) => Severity::Recoverable,
        RenderError::Config(_) => Severity::Recoverable,
        RenderError::Surface(s) => spec_surface_severity(s),
        RenderError::ShaderCompileFailure => Severity::Fatal,
    }
}

/// Classifies an error of the loop.
pub fn classify(e: RenderError) -> (s: Severity)
    ensures
        s == spec_severity(e),
{
    match e {
        RenderError::Physics(_) => Severity::Recoverable,
        RenderError::Config(_) => Severity::Recoverable,
        RenderError::Surface(s) => match s {
            SurfaceError::Lost => Severity::Recoverable,
            SurfaceError::Outdated => Severity::Recoverable,
            SurfaceError::Timeout => Severity::Transient,
            SurfaceError::OutOfMemory => Severity::Fatal,
        },
        RenderError::ShaderCompileFailure => Severity::Fatal,
    }
}

} // verus!
