//! A non-blocking write pipeline for a shared SPI bus.
//!
//! Producers accumulate one logical request (a command byte followed by data
//! bytes), then flush it through a throttle gate into a bounded FIFO
//! submission queue.  A single dispatcher drains the queue in order and runs
//! each request through a hardware transfer state machine that asserts
//! chip-select, writes the command byte, optionally settles, writes the data
//! bytes (blocking for single-byte transfers, non-blocking with a completion
//! wait otherwise) and always releases chip-select at the end.

pub mod accumulator;
pub mod buffer;
pub mod driver;
pub mod engine;
pub mod errors;
pub mod laws;
pub mod model;
pub mod request;
pub mod signal;
pub mod sim;

pub use driver::{
    spi_noblock_init, spi_noblock_write_command, spi_noblock_write_data, spi_noblock_write_flush,
    SpiDriver,
};
pub use engine::{HwAction, HwOutcome, LineLevel, TransferEngine, TransferPhase};
pub use errors::SpiError;
pub use request::QueuedRequest;
pub use signal::CompletionSignal;
pub use sim::{run_transfer, SimulatedBus};
