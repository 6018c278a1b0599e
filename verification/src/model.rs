//! The mathematical model of the driver: its abstract state and the exact
//! transition of every public operation.
//!
//! Each executable operation on [`crate::driver::SpiDriver`] promises that
//! the pair of its final state and its result equals the corresponding spec
//! transition applied to its initial state, so every property of the pipeline
//! can be stated and proved over these transitions alone.

use vstd::prelude::*;

use crate::accumulator::{pending_payload, PendingView};
use crate::buffer::DATA_CAPACITY;
use crate::errors::SpiError;

verus! {

/// The abstract state of the whole driver.
#[verifier::ext_equal]
pub ghost struct DriverView {
    /// The SPI port number, recorded for whoever binds the physical bus.
    pub port: i32,
    /// The chip-select pin.
    pub chip_select_pin: i32,
    /// The command/data control pin.
    pub control_pin: i32,
    /// The configured baud rate, in kHz.
    pub baud_rate: u32,
    /// The configured SPI mode.
    pub mode: u8,
    /// The configured word size.
    pub word_size: u8,
    /// The pending command byte, if one was set since the last flush.
    pub cmd: Option<u8>,
    /// The pending data bytes, in submission order.
    pub data: Seq<u8>,
    /// The submission queue: each element is one queued payload, command byte
    /// first; index 0 is the front (oldest) request.
    pub queue: Seq<Seq<u8>>,
    /// How many throttle tokens are held: requests queued or dequeued but not
    /// yet completed.
    pub in_flight: int,
    /// The throttle gate's token count: the bound on `in_flight`.
    pub max_in_flight: int,
    /// The configured accumulator capacity, in data bytes.
    pub max_pending: int,
    /// The command-delay table: pairs of command byte and settle delay in
    /// milliseconds; the latest entry for a byte wins.
    pub delays: Seq<(u8, u32)>,
}

/// Well-formedness of a driver state.  Established by initialization and
/// preserved by every operation.
pub open spec fn wf(v: DriverView) -> bool {
    &&& 0 <= v.in_flight <= v.max_in_flight
    &&& v.queue.len() <= v.in_flight
    &&& 0 <= v.data.len() <= v.max_pending
    &&& v.max_pending <= DATA_CAPACITY as int
    &&& (v.cmd is None ==> v.data.len() == 0)
    &&& (forall|i: int| 0 <= i < v.queue.len() ==> #[trigger] v.queue[i].len() >= 1)
}

/// The pending part of the state, as the accumulator sees it.
pub open spec fn pending_of(v: DriverView) -> PendingView {
    PendingView { cmd: v.cmd, data: v.data }
}

/// Submitting data bytes: rejected with `ProtocolViolation` before any
/// command byte, rejected with `CapacityExceeded` when the configured
/// capacity would be exceeded (leaving the pending request unchanged so the
/// caller may retry with less data), and appended in call order otherwise.
pub open spec fn spec_submit_data(v: DriverView, d: Seq<u8>) -> (DriverView, Result<(), SpiError>) {
    if v.cmd is None {
        (v, Err(SpiError::ProtocolViolation))
    } else if v.data.len() + d.len() > v.max_pending {
        (v, Err(SpiError::CapacityExceeded))
    } else {
        (DriverView { data: v.data + d, ..v }, Ok(()))
    }
}

/// Flushing: a no-op on an empty accumulator; otherwise the pending payload
/// is handed to the submission queue behind the throttle gate.  When no token
/// is free the bounded wait elapses and the flush fails with `Timeout`.  The
/// accumulator is cleared whether or not the enqueue succeeded.
pub open spec fn spec_flush(v: DriverView) -> (DriverView, Result<(), SpiError>) {
    if v.cmd is None && v.data.len() == 0 {
        (v, Ok(()))
    } else if v.in_flight < v.max_in_flight {
        (
            DriverView {
                cmd: None,
                data: Seq::empty(),
                queue: v.queue.push(pending_payload(pending_of(v))),
                in_flight: v.in_flight + 1,
                ..v
            },
            Ok(()),
        )
    } else {
        (DriverView { cmd: None, data: Seq::empty(), ..v }, Err(SpiError::Timeout))
    }
}

/// Submitting a command byte: any pending request is first flushed
/// (enqueue-if-nonempty); a flush failure is propagated and the new command
/// byte is not set.  Otherwise the command byte opens the next request.
pub open spec fn spec_submit_command(v: DriverView, cmd: u8) -> (DriverView, Result<
    (),
    SpiError,
>) {
    let (v1, r1) = spec_flush(v);
    match r1 {
        Ok(_) => (DriverView { cmd: Some(cmd), ..v1 }, Ok(())),
        Err(e) => (v1, Err(e)),
    }
}

/// The dispatcher taking the next request: the front of the queue, in FIFO
/// order.  The throttle token stays held until the request completes.
pub open spec fn spec_take_next(v: DriverView) -> (DriverView, Option<Seq<u8>>) {
    if v.queue.len() == 0 {
        (v, None)
    } else {
        (DriverView { queue: v.queue.drop_first(), ..v }, Some(v.queue[0]))
    }
}

/// The dispatcher completing a request: its throttle token is released.
/// Releasing without an outstanding dequeued request is an accounting bug and
/// reported as `QueueError`.
pub open spec fn spec_complete(v: DriverView) -> (DriverView, Result<(), SpiError>) {
    if v.in_flight > v.queue.len() {
        (DriverView { in_flight: v.in_flight - 1, ..v }, Ok(()))
    } else {
        (v, Err(SpiError::QueueError))
    }
}

} // verus!
