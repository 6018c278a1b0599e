//! The driver context: accumulator, throttle gate and submission queue.
//!
//! A single explicitly constructed object owns all pipeline state, is passed
//! by mutable reference to producers and to the dispatcher, and admits
//! multiple independent instances.  Producers call [`spi_noblock_write_command`],
//! [`spi_noblock_write_data`] and [`spi_noblock_write_flush`]; the dispatcher
//! calls [`take_next_request`](SpiDriver::take_next_request) and
//! [`complete_request`](SpiDriver::complete_request).

use vstd::prelude::*;

use crate::accumulator::{pending_payload, PendingRequest};
use crate::buffer::DATA_CAPACITY;
use crate::errors::SpiError;
use crate::model::{
    pending_of, spec_complete, spec_flush, spec_submit_command, spec_submit_data, spec_take_next,
    wf, DriverView,
};
use crate::request::QueuedRequest;

verus! {

/// The command-delay table installed by initialization: the hardware reset,
/// sleep-out and display-on commands need a fixed settling delay between the
/// command and data phases.
pub open spec fn spec_default_delays() -> Seq<(u8, u32)> {
    seq![(0x01u8, 200u32), (0x11u8, 200u32), (0x29u8, 200u32)]
}

fn default_delay_table() -> (r: Vec<(u8, u32)>)
    ensures
        r@ == spec_default_delays(),
{
    let mut t: Vec<(u8, u32)> = Vec::new();
    t.push((0x01, 200));
    t.push((0x11, 200));
    t.push((0x29, 200));
    proof {
        assert(t@ =~= spec_default_delays());
    }
    t
}

/// The driver context.  All pipeline state lives here; the hardware itself is
/// driven by whoever executes the actions of [`crate::engine::TransferEngine`].
pub struct SpiDriver {
    port: i32,
    chip_select_pin: i32,
    control_pin: i32,
    baud_rate: u32,
    mode: u8,
    word_size: u8,
    max_in_flight: usize,
    max_pending_data_bytes: usize,
    delays: Vec<(u8, u32)>,
    pending: PendingRequest,
    queue: Vec<QueuedRequest>,
    in_flight: usize,
}

impl View for SpiDriver {
    type V = DriverView;

    closed spec fn view(&self) -> DriverView {
        DriverView {
            port: self.port,
            chip_select_pin: self.chip_select_pin,
            control_pin: self.control_pin,
            baud_rate: self.baud_rate,
            mode: self.mode,
            word_size: self.word_size,
            cmd: self.pending@.cmd,
            data: self.pending@.data,
            queue: self.queue@.map_values(|q: QueuedRequest| q@),
            in_flight: self.in_flight as int,
            max_in_flight: self.max_in_flight as int,
            max_pending: self.max_pending_data_bytes as int,
            delays: self.delays@,
        }
    }
}

impl SpiDriver {
    /// The SPI port number, for whoever binds the physical bus.
    pub fn port(&self) -> (r: i32)
        ensures
            r == self@.port,
    {
        self.port
    }

    /// The chip-select pin.
    pub fn chip_select_pin(&self) -> (r: i32)
        ensures
            r == self@.chip_select_pin,
    {
        self.chip_select_pin
    }

    /// The command/data control pin.
    pub fn control_pin(&self) -> (r: i32)
        ensures
            r == self@.control_pin,
    {
        self.control_pin
    }

    /// The configured baud rate, in kHz.
    pub fn baud_rate(&self) -> (r: u32)
        ensures
            r == self@.baud_rate,
    {
        self.baud_rate
    }

    /// The configured SPI mode.
    pub fn mode(&self) -> (r: u8)
        ensures
            r == self@.mode,
    {
        self.mode
    }

    /// The configured word size.
    pub fn word_size(&self) -> (r: u8)
        ensures
            r == self@.word_size,
    {
        self.word_size
    }

    /// The command-delay table, as pairs of command byte and settle delay.
    pub fn delay_table(&self) -> (r: &Vec<(u8, u32)>)
        ensures
            r@ == self@.delays,
    {
        &self.delays
    }

    /// Adds or overrides the settle delay for one command byte.  The latest
    /// entry for a byte wins.
    pub fn set_command_delay(&mut self, cmd: u8, delay_ms: u32)
        requires
            wf(old(self)@),
        ensures
            wf(final(self)@),
            final(self)@ == (DriverView { delays: old(self)@.delays.push((cmd, delay_ms)), ..old(self)@ }),
    {
        self.delays.push((cmd, delay_ms));
    }

    /// The dispatcher's dequeue: the front of the submission queue, in FIFO
    /// order, or `None` when the queue is empty.  The throttle token of a
    /// dequeued request stays held until [`Self::complete_request`].
    pub fn take_next_request(&mut self) -> (r: Option<QueuedRequest>)
        requires
            wf(old(self)@),
        ensures
            wf(final(self)@),
            final(self)@ == spec_take_next(old(self)@).0,
            match r {
                Some(q) => spec_take_next(old(self)@).1 == Some(q@) && q@.len() >= 1,
                None => spec_take_next(old(self)@).1 is None,
            },
    {
        if self.queue.len() == 0 {
            None
        } else {
            let q = self.queue.remove(0);
            proof {
                assert(self@.queue =~= old(self)@.queue.drop_first());
                assert(self@ =~= spec_take_next(old(self)@).0);
            }
            Some(q)
        }
    }

    /// The dispatcher's completion: releases the throttle token of the
    /// request it finished, successful or not, so producers may queue the
    /// next request.  Releasing with no outstanding dequeued request is an
    /// accounting bug and reports `QueueError`.
    pub fn complete_request(&mut self) -> (r: Result<(), SpiError>)
        requires
            wf(old(self)@),
        ensures
            wf(final(self)@),
            final(self)@ == spec_complete(old(self)@).0,
            r == spec_complete(old(self)@).1,
    {
        if self.in_flight > self.queue.len() {
            self.in_flight = self.in_flight - 1;
            proof {
                assert(self@ =~= spec_complete(old(self)@).0);
            }
            Ok(())
        } else {
            Err(SpiError::QueueError)
        }
    }
}

/// Initializes a driver context.
///
/// The hardware parameters (port, pins, baud rate, mode, word size) are
/// recorded for whoever binds the physical bus; the pipeline itself starts
/// with an empty accumulator, an empty queue and all throttle tokens free.
/// A capacity above the compile-time buffer size is rejected with
/// `CapacityExceeded`.
pub fn spi_noblock_init(
    port: i32,
    chip_select_pin: i32,
    control_pin: i32,
    baud_rate: u32,
    mode: u8,
    word_size: u8,
    max_in_flight: usize,
    max_pending_data_bytes: usize,
) -> (r: Result<SpiDriver, SpiError>)
    ensures
        max_pending_data_bytes <= DATA_CAPACITY ==> (r matches Ok(d) && wf(d@) && d@ == (
        DriverView {
            port: port,
            chip_select_pin: chip_select_pin,
            control_pin: control_pin,
            baud_rate: baud_rate,
            mode: mode,
            word_size: word_size,
            cmd: None,
            data: Seq::empty(),
            queue: Seq::empty(),
            in_flight: 0,
            max_in_flight: max_in_flight as int,
            max_pending: max_pending_data_bytes as int,
            delays: spec_default_delays(),
        })),
        max_pending_data_bytes > DATA_CAPACITY ==> r == Err::<SpiDriver, SpiError>(
            SpiError::CapacityExceeded,
        ),
{
    if max_pending_data_bytes > DATA_CAPACITY {
        return Err(SpiError::CapacityExceeded);
    }
    let d = SpiDriver {
        port,
        chip_select_pin,
        control_pin,
        baud_rate,
        mode,
        word_size,
        max_in_flight,
        max_pending_data_bytes,
        delays: default_delay_table(),
        pending: PendingRequest::new(),
        queue: Vec::new(),
        in_flight: 0,
    };
    proof {
        assert(d@.queue =~= Seq::<Seq<u8>>::empty());
        assert(d@ =~= (DriverView {
            port: port,
            chip_select_pin: chip_select_pin,
            control_pin: control_pin,
            baud_rate: baud_rate,
            mode: mode,
            word_size: word_size,
            cmd: None,
            data: Seq::empty(),
            queue: Seq::empty(),
            in_flight: 0,
            max_in_flight: max_in_flight as int,
            max_pending: max_pending_data_bytes as int,
            delays: spec_default_delays(),
        }));
    }
    Ok(d)
}

/// Sets the pending request's command byte.  Any request already pending is
/// implicitly flushed first (enqueue-if-nonempty); a flush failure is
/// propagated and the new command byte is not set.
pub fn spi_noblock_write_command(driver: &mut SpiDriver, cmd: u8) -> (r: Result<(), SpiError>)
    requires
        wf(old(driver)@),
    ensures
        wf(final(driver)@),
        final(driver)@ == spec_submit_command(old(driver)@, cmd).0,
        r == spec_submit_command(old(driver)@, cmd).1,
{
    match spi_noblock_write_flush(driver) {
        Err(e) => Err(e),
        Ok(_) => {
            driver.pending.set_command(cmd);
            proof {
                assert(driver@ =~= spec_submit_command(old(driver)@, cmd).0);
            }
            Ok(())
        },
    }
}

/// Appends data bytes to the pending request.  Fails with
/// `ProtocolViolation` before any command byte, and with `CapacityExceeded`
/// when the configured capacity would be exceeded; in both failure cases the
/// pending request is left unchanged, so a caller may retry with less data.
pub fn spi_noblock_write_data(driver: &mut SpiDriver, data: &[u8]) -> (r: Result<(), SpiError>)
    requires
        wf(old(driver)@),
    ensures
        wf(final(driver)@),
        final(driver)@ == spec_submit_data(old(driver)@, data@).0,
        r == spec_submit_data(old(driver)@, data@).1,
{
    if !driver.pending.has_command() {
        return Err(SpiError::ProtocolViolation);
    }
    let pending_len = driver.pending.data_len();
    if data.len() > driver.max_pending_data_bytes - pending_len {
        return Err(SpiError::CapacityExceeded);
    }
    driver.pending.append_data(data);
    proof {
        assert(driver@ =~= spec_submit_data(old(driver)@, data@).0);
    }
    Ok(())
}

/// Enqueues the pending request, if any, as one immutable payload behind the
/// throttle gate, and clears the accumulator.  A flush with nothing pending
/// is a no-op returning success.  When all throttle tokens are held the
/// bounded wait elapses and the flush fails with `Timeout`; the accumulator
/// is cleared regardless of the outcome.
pub fn spi_noblock_write_flush(driver: &mut SpiDriver) -> (r: Result<(), SpiError>)
    requires
        wf(old(driver)@),
    ensures
        wf(final(driver)@),
        final(driver)@ == spec_flush(old(driver)@).0,
        r == spec_flush(old(driver)@).1,
{
    if !driver.pending.has_command() {
        return Ok(());
    }
    if driver.in_flight < driver.max_in_flight {
        let payload = driver.pending.take_payload();
        let req = QueuedRequest::from_bytes(payload);
        driver.queue.push(req);
        driver.in_flight = driver.in_flight + 1;
        proof {
            assert(driver@.queue =~= old(driver)@.queue.push(
                pending_payload(pending_of(old(driver)@)),
            ));
            assert(driver@ =~= spec_flush(old(driver)@).0);
        }
        Ok(())
    } else {
        driver.pending.reset();
        proof {
            assert(driver@ =~= spec_flush(old(driver)@).0);
        }
        Err(SpiError::Timeout)
    }
}

} // verus!
