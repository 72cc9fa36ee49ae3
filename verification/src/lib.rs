//! Lifecycle and composition logic for GStreamer applications.
//!
//! An application builds its pipeline and hands it to a runner, which starts it,
//! watches its message bus, reacts to a shutdown request and takes it back to
//! `Null`. This library holds every decision of that lifecycle as a state machine:
//! [`runtime`] for the runner whose native calls run on worker threads and whose
//! cleanup survives cancellation, [`bounded`] for the runner whose teardown has a
//! deadline, and [`drive`] for the part that both share. [`compose`] holds the
//! helpers that name elements, expose ghost pads and link dynamic pads.
//!
//! The machines perform nothing themselves. A host asks for the action that is due,
//! performs it on the real pipeline and reports what happened as an event.
pub mod bounded;
pub mod bounded_laws;
pub mod clock;
pub mod clock_laws;
pub mod compose;
pub mod compose_laws;
pub mod drive;
pub mod drive_laws;
pub mod error;
pub mod error_laws;
pub mod outcome;
pub mod runtime;
pub mod runtime_laws;
pub mod trace;

use vstd::prelude::*;

pub use crate::compose::{connect_dynamic, ghost_sink, ghost_src, make, BinBase, PipelineBin};
pub use crate::error::{ComposeError, InitError, RunError};
pub use crate::runtime::{PipelineExit, PipelineRunner, ShutdownMode};

verus! {

/// Judges the initialisation of the process-wide GStreamer runtime, which must come before
/// any element or pipeline is made.
pub fn init(initialised: Result<(), String>) -> (r: Result<(), InitError>)
    ensures
        match initialised {
            Ok(()) => r is Ok,
            Err(cause) => r == Err::<(), InitError>(InitError { cause }),
        },
{
    match initialised {
        Ok(()) => Ok(()),
        Err(cause) => Err(InitError { cause }),
    }
}

}
