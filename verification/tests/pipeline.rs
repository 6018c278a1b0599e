//! Producer-side pipeline behaviour: accumulation, backpressure and errors.

use spi_noblock::driver::{
    spi_noblock_init, spi_noblock_write_command, spi_noblock_write_data, spi_noblock_write_flush,
    SpiDriver,
};
use spi_noblock::errors::SpiError;

fn new_driver(max_in_flight: usize, max_pending: usize) -> SpiDriver {
    spi_noblock_init(0, 25, 18, 8000, 3, 8, max_in_flight, max_pending).unwrap()
}

#[test]
fn accumulated_data_is_concatenated_in_call_order() {
    let mut d = new_driver(2, 8192);
    assert!(spi_noblock_write_command(&mut d, 0x2A).is_ok());
    assert!(spi_noblock_write_data(&mut d, &[0x01]).is_ok());
    assert!(spi_noblock_write_data(&mut d, &[0x02, 0x03]).is_ok());
    assert!(spi_noblock_write_data(&mut d, &[]).is_ok());
    assert!(spi_noblock_write_data(&mut d, &[0x04]).is_ok());
    assert!(spi_noblock_write_flush(&mut d).is_ok());
    let q = d.take_next_request().unwrap();
    assert_eq!(q.bytes().as_slice(), &[0x2A, 0x01, 0x02, 0x03, 0x04]);
    assert!(d.complete_request().is_ok());
}

#[test]
fn data_before_command_fails_without_side_effect() {
    let mut d = new_driver(2, 8192);
    assert_eq!(
        spi_noblock_write_data(&mut d, &[0x01, 0x02]),
        Err(SpiError::ProtocolViolation)
    );
    // No side effect: a flush is still a no-op and nothing was queued.
    assert!(spi_noblock_write_flush(&mut d).is_ok());
    assert!(d.take_next_request().is_none());
    // The rejected bytes do not show up in a later request either.
    assert!(spi_noblock_write_command(&mut d, 0x2A).is_ok());
    assert!(spi_noblock_write_data(&mut d, &[0x09]).is_ok());
    assert!(spi_noblock_write_flush(&mut d).is_ok());
    let q = d.take_next_request().unwrap();
    assert_eq!(q.bytes().as_slice(), &[0x2A, 0x09]);
}

#[test]
fn flush_with_nothing_pending_is_an_idempotent_no_op() {
    let mut d = new_driver(2, 8192);
    assert!(spi_noblock_write_flush(&mut d).is_ok());
    assert!(spi_noblock_write_flush(&mut d).is_ok());
    assert!(d.take_next_request().is_none());
}

#[test]
fn command_implicitly_flushes_the_previous_request() {
    let mut d = new_driver(2, 8192);
    assert!(spi_noblock_write_command(&mut d, 0xA0).is_ok());
    assert!(spi_noblock_write_data(&mut d, &[0x01]).is_ok());
    // Setting the next command byte enqueues the pending request first.
    assert!(spi_noblock_write_command(&mut d, 0xB0).is_ok());
    let q = d.take_next_request().unwrap();
    assert_eq!(q.bytes().as_slice(), &[0xA0, 0x01]);
    assert!(d.complete_request().is_ok());
    assert!(spi_noblock_write_flush(&mut d).is_ok());
    let q2 = d.take_next_request().unwrap();
    assert_eq!(q2.bytes().as_slice(), &[0xB0]);
}

#[test]
fn capacity_overflow_is_rejected_and_keeps_the_pending_request() {
    let mut d = new_driver(2, 4);
    assert!(spi_noblock_write_command(&mut d, 0x2A).is_ok());
    assert!(spi_noblock_write_data(&mut d, &[0x01, 0x02]).is_ok());
    // Three more bytes would exceed the configured capacity of four.
    assert_eq!(
        spi_noblock_write_data(&mut d, &[0x03, 0x04, 0x05]),
        Err(SpiError::CapacityExceeded)
    );
    // The pending request is unchanged: a retry with less data fits.
    assert!(spi_noblock_write_data(&mut d, &[0x03, 0x04]).is_ok());
    assert_eq!(
        spi_noblock_write_data(&mut d, &[0x05]),
        Err(SpiError::CapacityExceeded)
    );
    assert!(spi_noblock_write_flush(&mut d).is_ok());
    let q = d.take_next_request().unwrap();
    assert_eq!(q.bytes().as_slice(), &[0x2A, 0x01, 0x02, 0x03, 0x04]);
}

#[test]
fn a_full_capacity_request_is_accepted() {
    let mut d = new_driver(2, 8192);
    assert!(spi_noblock_write_command(&mut d, 0x2C).is_ok());
    let big = vec![0xEE; 8192];
    assert!(spi_noblock_write_data(&mut d, &big).is_ok());
    assert_eq!(
        spi_noblock_write_data(&mut d, &[0x00]),
        Err(SpiError::CapacityExceeded)
    );
    assert!(spi_noblock_write_flush(&mut d).is_ok());
    let q = d.take_next_request().unwrap();
    assert_eq!(q.bytes().len(), 8193);
    assert_eq!(q.bytes()[0], 0x2C);
    assert_eq!(q.bytes()[8192], 0xEE);
}

#[test]
fn init_rejects_a_capacity_above_the_buffer_size() {
    assert_eq!(
        spi_noblock_init(0, 25, 18, 8000, 3, 8, 2, 8193).err(),
        Some(SpiError::CapacityExceeded)
    );
    assert!(spi_noblock_init(0, 25, 18, 8000, 3, 8, 2, 8192).is_ok());
}

#[test]
fn throttle_gate_bounds_in_flight_requests() {
    let mut d = new_driver(2, 8192);
    // Two requests acquire throttle tokens while the dispatcher is stalled.
    assert!(spi_noblock_write_command(&mut d, 0x10).is_ok());
    assert!(spi_noblock_write_flush(&mut d).is_ok());
    assert!(spi_noblock_write_command(&mut d, 0x11).is_ok());
    assert!(spi_noblock_write_flush(&mut d).is_ok());
    // The third waits out the bound and fails with a timeout.
    assert!(spi_noblock_write_command(&mut d, 0x12).is_ok());
    assert_eq!(spi_noblock_write_flush(&mut d), Err(SpiError::Timeout));
    // Once the dispatcher completes one request, a token is free again.
    let q = d.take_next_request().unwrap();
    assert_eq!(q.bytes().as_slice(), &[0x10]);
    assert!(d.complete_request().is_ok());
    assert!(spi_noblock_write_command(&mut d, 0x13).is_ok());
    assert!(spi_noblock_write_flush(&mut d).is_ok());
}

#[test]
fn failed_flush_clears_the_accumulator() {
    let mut d = new_driver(1, 8192);
    assert!(spi_noblock_write_command(&mut d, 0x20).is_ok());
    assert!(spi_noblock_write_flush(&mut d).is_ok());
    assert!(spi_noblock_write_command(&mut d, 0x21).is_ok());
    assert!(spi_noblock_write_data(&mut d, &[0x01]).is_ok());
    assert_eq!(spi_noblock_write_flush(&mut d), Err(SpiError::Timeout));
    // The accumulator was cleared on failure: nothing is pending now.
    assert!(spi_noblock_write_flush(&mut d).is_ok());
    let q = d.take_next_request().unwrap();
    assert_eq!(q.bytes().as_slice(), &[0x20]);
    assert!(d.take_next_request().is_none());
}

#[test]
fn completing_without_an_outstanding_request_is_a_queue_error() {
    let mut d = new_driver(2, 8192);
    assert_eq!(d.complete_request(), Err(SpiError::QueueError));
    // A queued but not yet dequeued request does not allow a release either.
    assert!(spi_noblock_write_command(&mut d, 0x10).is_ok());
    assert!(spi_noblock_write_flush(&mut d).is_ok());
    assert_eq!(d.complete_request(), Err(SpiError::QueueError));
    let _ = d.take_next_request().unwrap();
    assert!(d.complete_request().is_ok());
    assert_eq!(d.complete_request(), Err(SpiError::QueueError));
}

#[test]
fn requests_are_dequeued_in_enqueue_order() {
    let mut d = new_driver(3, 8192);
    for cmd in [0xA0u8, 0xB0, 0xC0] {
        assert!(spi_noblock_write_command(&mut d, cmd).is_ok());
        assert!(spi_noblock_write_data(&mut d, &[cmd + 1]).is_ok());
        assert!(spi_noblock_write_flush(&mut d).is_ok());
    }
    for cmd in [0xA0u8, 0xB0, 0xC0] {
        let q = d.take_next_request().unwrap();
        assert_eq!(q.bytes().as_slice(), &[cmd, cmd + 1]);
        assert!(d.complete_request().is_ok());
    }
    assert!(d.take_next_request().is_none());
}

#[test]
fn hardware_parameters_are_recorded() {
    let d = new_driver(2, 8192);
    assert_eq!(d.port(), 0);
    assert_eq!(d.chip_select_pin(), 25);
    assert_eq!(d.control_pin(), 18);
    assert_eq!(d.baud_rate(), 8000);
    assert_eq!(d.mode(), 3);
    assert_eq!(d.word_size(), 8);
}
