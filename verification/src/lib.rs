//! User-space driver library for a data-streaming accelerator exposed
//! through a work-queue submission model, with a software fallback engine
//! that provides the identical operation contract on machines without the
//! hardware.

pub mod descriptor;
pub mod device;
pub mod engine;
pub mod error;
pub mod opcode;
pub mod submit;
pub mod wq;

pub use descriptor::{CompletionStatus, DsaCompletionRecord, DsaHwDesc};
pub use device::DsaDevice;
pub use engine::DsaEngine;
pub use error::DsaError;
pub use opcode::DsaOpcode;
pub use wq::{WorkQueue, WorkQueueInfo, WorkQueueType};
