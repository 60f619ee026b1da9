//! Two cooperating control loops, a window-facing orchestrator and a
//! free-running renderer, and the non-blocking message link between them.

pub mod channel;
pub mod communicator;
pub mod communique;
pub mod dimensions;
pub mod messages;
pub mod orchestrator;
pub mod renderer;

pub use communicator::{Communicator, SendFailure};
pub use communique::{Communique, Envelope};
pub use dimensions::Dimensions;
pub use messages::{MessageFromOrchestratorToRenderer, MessageFromRendererToOrchestrator};
pub use orchestrator::Orchestrator;
pub use renderer::Renderer;
