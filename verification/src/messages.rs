//! The closed vocabularies of the two directions of the link.

use vstd::prelude::*;

verus! {

/// What the orchestrator can ask of the renderer.
#[derive(Clone, Copy, Debug, PartialEq, Eq, Structural)]
pub enum MessageFromOrchestratorToRenderer {
    /// Stop at the top of the next pass of the loop.
    Halt,
    /// Run the test routine that the number selects.
    Test(u8),
}

/// What the renderer can report to the orchestrator.
#[derive(Clone, Copy, Debug, PartialEq, Eq, Structural)]
pub enum MessageFromRendererToOrchestrator {
    /// The renderer's loop has ended.
    Halted,
}

} // verus!
