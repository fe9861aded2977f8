//! Supervisor library for a long-running external render job.
//!
//! The library turns the job's line-oriented progress output into discrete
//! domain events and accumulates them into live dashboard statistics:
//! a pure line classifier, a saved-frame/render-time correlator, and a
//! stateful progress tracker with exact duration formatting.

use vstd::prelude::*;

pub mod blender;
pub mod status;
pub mod text;

verus! {

/// Configuration for one render run, fixed at startup and never mutated.
pub struct RunnerOptions {
    pub input_file: String,
    pub output_dir: String,
    pub frame_start: u32,
    pub frame_end: u32,
}

impl RunnerOptions {
    /// The requested frame range is inclusive on both ends and must be
    /// non-empty; its size must fit in a `u32`.
    pub open spec fn wf(self) -> bool {
        &&& self.frame_start <= self.frame_end
        &&& self.frame_end - self.frame_start + 1 <= u32::MAX
    }
}

/// A domain event sent from the job runner to the progress renderer.
#[derive(Clone, Copy, Debug, PartialEq, Eq, Structural)]
pub enum StatusUpdate {
    /// The subprocess was spawned successfully.
    Started,
    /// One frame was saved and its render duration observed.
    RenderedFrame { frame_number: u32, render_time: u32 },
    /// The subprocess exited with status code zero.
    Finished,
}

/// A fatal condition observed while supervising the render job.
#[derive(Clone, Copy, Debug, PartialEq, Eq, Structural)]
pub enum RunError {
    /// A structurally matched line carried a number out of range.
    MalformedOutput,
    /// A render-time line arrived with no pending saved frame.
    CorrelationViolation,
    /// The subprocess exited with the given nonzero status code.
    SubprocessFailure(i32),
    /// The subprocess was terminated by a signal, so no exit code exists.
    SubprocessSignal,
}

} // verus!
