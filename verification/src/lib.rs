//! Driver-side transport for para-virtualised devices that are reached through a
//! memory-mapped register block and shared-memory rings.
//!
//! The crate holds the device-independent core (register handshake, descriptor
//! table, availability and used rings, slot pool) and the front ends built on it.
//! Every structure is a plain value: buffers are named by their physical address,
//! never dereferenced, and the device's side of the shared memory is written by
//! whoever owns the value.
pub mod block;
pub mod config;
pub mod gpu;
pub mod gpu_command;
pub mod header;
pub mod input;
pub mod net;
pub mod pool;
pub mod queue;
pub mod queue_laws;
pub mod require;

pub use block::Block;
pub use config::{DeviceType, InterruptError, InterruptOk, Pixel, Rect};
pub use gpu::GPU;
pub use header::VirtHeader;
pub use input::{InputDevice, InputEvent};
pub use net::Net;
pub use queue::VirtQueue;
pub use require::{BlockDriver, Driver, GraphicDriver, NetDriver};

use vstd::prelude::*;

verus! {

pub type InterruptResult = Result<InterruptOk, InterruptError>;

pub type IoResult = Result<(), config::IoError>;

pub type GraphicResult = Result<(), config::GraphicError>;

} // verus!
