//! Frame lifecycle and presentation synchronization for a real-time renderer.
//!
//! This crate is the verified core of a frame loop: it decides when a frame
//! slot may be reused, which presentable image a frame may render into, when
//! the surface must be recreated, and in what order teardown must happen.
//! The asynchronous device work itself (waits, acquires, submits, presents)
//! is performed by an unverified driver, which feeds each outcome back into
//! the state machine and performs exactly the device actions the trace
//! prescribes.

pub mod command_pool;
pub mod laws;
pub mod pipeline_manager;
pub mod renderer;
pub mod shader_manager;
pub mod swapchain;
pub mod sync;
pub mod trace;
pub mod vertex;

pub use command_pool::CommandPool;
pub use pipeline_manager::{PipelineId, PipelineManager};
pub use renderer::{RenderFrame, Renderer, RendererConfig};
pub use shader_manager::ShaderId;
pub use swapchain::{ColorFormat, Extent2D, PresentMode, Swapchain};
pub use sync::FrameSynchronizer;
pub use trace::{AcquireOutcome, CommandBufferState, FenceState, RenderError, TraceEvent};
pub use vertex::VertexFormat;
