//! Transfer-engine behaviour on the simulated bus: routing, traces, delays,
//! failure paths and the completion signal.

use spi_noblock::driver::{
    spi_noblock_init, spi_noblock_write_command, spi_noblock_write_data, spi_noblock_write_flush,
    SpiDriver,
};
use spi_noblock::engine::{HwAction, LineLevel, TransferEngine};
use spi_noblock::errors::SpiError;
use spi_noblock::sim::{run_transfer, SimulatedBus};

fn new_driver() -> SpiDriver {
    spi_noblock_init(0, 25, 18, 8000, 3, 8, 4, 8192).unwrap()
}

/// Queues one request (command plus data) and returns its engine.
fn queue_request(d: &mut SpiDriver, cmd: u8, data: &[u8]) -> TransferEngine {
    assert!(spi_noblock_write_command(d, cmd).is_ok());
    assert!(spi_noblock_write_data(d, data).is_ok());
    assert!(spi_noblock_write_flush(d).is_ok());
    let q = d.take_next_request().unwrap();
    TransferEngine::begin(q, d.delay_table())
}

/// The bytes moved by transfer actions, in log order.
fn transferred_bytes(log: &[HwAction]) -> Vec<u8> {
    let mut out = Vec::new();
    for a in log {
        match a {
            HwAction::TransferBlocking(b) => out.extend_from_slice(b),
            HwAction::StartNonBlocking(b) => out.extend_from_slice(b),
            _ => {}
        }
    }
    out
}

fn count_matching(log: &[HwAction], pred: impl Fn(&HwAction) -> bool) -> usize {
    log.iter().filter(|a| pred(a)).count()
}

#[test]
fn end_to_end_trace_of_a_command_with_data() {
    let mut d = new_driver();
    let mut e = queue_request(&mut d, 0x2A, &[0x01, 0x02, 0x03]);
    let mut bus = SimulatedBus::new();
    assert!(run_transfer(&mut e, &mut bus).is_ok());
    assert!(d.complete_request().is_ok());
    let log = bus.log();
    assert_eq!(log.len(), 7);
    assert!(matches!(log[0], HwAction::SetControlLine(LineLevel::Command)));
    assert!(matches!(log[1], HwAction::AssertChipSelect));
    match &log[2] {
        HwAction::TransferBlocking(b) => assert_eq!(b.as_slice(), &[0x2A]),
        _ => panic!("expected a blocking command transfer"),
    }
    assert!(matches!(log[3], HwAction::SetControlLine(LineLevel::Data)));
    match &log[4] {
        HwAction::StartNonBlocking(b) => assert_eq!(b.as_slice(), &[0x01, 0x02, 0x03]),
        _ => panic!("expected a non-blocking data transfer"),
    }
    assert!(matches!(log[5], HwAction::AwaitCompletion));
    assert!(matches!(log[6], HwAction::ReleaseChipSelect));
    // Chip-select is asserted once and released once, at the end.
    assert_eq!(count_matching(log, |a| matches!(a, HwAction::AssertChipSelect)), 1);
    assert_eq!(count_matching(log, |a| matches!(a, HwAction::ReleaseChipSelect)), 1);
}

#[test]
fn single_byte_transfers_use_the_blocking_primitive() {
    let mut d = new_driver();

    // Command byte only: exactly one blocking transfer, no non-blocking one.
    let mut e = queue_request(&mut d, 0x2A, &[]);
    let mut bus = SimulatedBus::new();
    assert!(run_transfer(&mut e, &mut bus).is_ok());
    assert!(d.complete_request().is_ok());
    let log = bus.log();
    assert_eq!(count_matching(log, |a| matches!(a, HwAction::TransferBlocking(_))), 1);
    assert_eq!(count_matching(log, |a| matches!(a, HwAction::StartNonBlocking(_))), 0);
    assert_eq!(count_matching(log, |a| matches!(a, HwAction::AwaitCompletion)), 0);
    // Zero data bytes: the control line never switches to the data level.
    assert_eq!(
        count_matching(log, |a| matches!(a, HwAction::SetControlLine(LineLevel::Data))),
        0
    );

    // One data byte: both phases take the blocking path.
    let mut e1 = queue_request(&mut d, 0x2A, &[0x55]);
    let mut bus1 = SimulatedBus::new();
    assert!(run_transfer(&mut e1, &mut bus1).is_ok());
    assert!(d.complete_request().is_ok());
    let log1 = bus1.log();
    assert_eq!(count_matching(log1, |a| matches!(a, HwAction::TransferBlocking(_))), 2);
    assert_eq!(count_matching(log1, |a| matches!(a, HwAction::StartNonBlocking(_))), 0);

    // Two data bytes: the data phase takes the non-blocking path and waits.
    let mut e2 = queue_request(&mut d, 0x2A, &[0x55, 0x66]);
    let mut bus2 = SimulatedBus::new();
    assert!(run_transfer(&mut e2, &mut bus2).is_ok());
    assert!(d.complete_request().is_ok());
    let log2 = bus2.log();
    assert_eq!(count_matching(log2, |a| matches!(a, HwAction::TransferBlocking(_))), 1);
    assert_eq!(count_matching(log2, |a| matches!(a, HwAction::StartNonBlocking(_))), 1);
    assert_eq!(count_matching(log2, |a| matches!(a, HwAction::AwaitCompletion)), 1);
}

#[test]
fn reset_command_settles_before_the_next_request() {
    let mut d = new_driver();
    let mut bus = SimulatedBus::new();

    // A reset command (no data): the configured 200 ms settle delay elapses
    // after the command phase.
    let mut e = queue_request(&mut d, 0x01, &[]);
    assert!(run_transfer(&mut e, &mut bus).is_ok());
    assert!(d.complete_request().is_ok());
    {
        let log = bus.log();
        assert_eq!(log.len(), 5);
        match &log[2] {
            HwAction::TransferBlocking(b) => assert_eq!(b.as_slice(), &[0x01]),
            _ => panic!("expected the command transfer"),
        }
        assert!(matches!(log[3], HwAction::SettleDelay(200)));
        assert!(matches!(log[4], HwAction::ReleaseChipSelect));
    }
    let first_len = bus.log().len();

    // The next request only starts selecting after the delay was performed.
    let mut e2 = queue_request(&mut d, 0x2A, &[0x07]);
    assert!(run_transfer(&mut e2, &mut bus).is_ok());
    assert!(d.complete_request().is_ok());
    let log = bus.log();
    assert!(matches!(log[first_len], HwAction::SetControlLine(LineLevel::Command)));
    let delay_pos = log.iter().position(|a| matches!(a, HwAction::SettleDelay(_))).unwrap();
    assert!(delay_pos < first_len);
}

#[test]
fn configured_delays_can_be_overridden() {
    let mut d = new_driver();
    d.set_command_delay(0x2A, 50);
    let mut e = queue_request(&mut d, 0x2A, &[]);
    let mut bus = SimulatedBus::new();
    assert!(run_transfer(&mut e, &mut bus).is_ok());
    assert!(bus.log().iter().any(|a| matches!(a, HwAction::SettleDelay(50))));
    // The latest entry for a byte wins.
    d.set_command_delay(0x2A, 10);
    let mut e2 = queue_request(&mut d, 0x2A, &[]);
    let mut bus2 = SimulatedBus::new();
    assert!(run_transfer(&mut e2, &mut bus2).is_ok());
    assert!(bus2.log().iter().any(|a| matches!(a, HwAction::SettleDelay(10))));
    assert!(!bus2.log().iter().any(|a| matches!(a, HwAction::SettleDelay(50))));
}

#[test]
fn fifo_requests_transfer_all_bytes_in_order() {
    let mut d = new_driver();
    let mut bus = SimulatedBus::new();
    let mut e1 = queue_request(&mut d, 0xA0, &[0xA1, 0xA2]);
    // The second request is queued before the first is processed.
    assert!(spi_noblock_write_command(&mut d, 0xB0).is_ok());
    assert!(spi_noblock_write_data(&mut d, &[0xB1, 0xB2]).is_ok());
    assert!(spi_noblock_write_flush(&mut d).is_ok());
    assert!(run_transfer(&mut e1, &mut bus).is_ok());
    assert!(d.complete_request().is_ok());
    let q2 = d.take_next_request().unwrap();
    let mut e2 = TransferEngine::begin(q2, d.delay_table());
    assert!(run_transfer(&mut e2, &mut bus).is_ok());
    assert!(d.complete_request().is_ok());
    // Every byte of the first request is on the bus before any of the second.
    assert_eq!(
        transferred_bytes(bus.log()),
        vec![0xA0, 0xA1, 0xA2, 0xB0, 0xB1, 0xB2]
    );
}

#[test]
fn device_failure_is_fatal_for_the_request_but_releases_the_bus() {
    let mut d = new_driver();
    let mut e = queue_request(&mut d, 0x2A, &[0x01, 0x02]);
    // The action at log position 2 is the command transfer: fail it.
    let mut bus = SimulatedBus::with_behavior(true, Some(2));
    assert_eq!(run_transfer(&mut e, &mut bus), Err(SpiError::DeviceError));
    let log = bus.log();
    // Chip-select is still released, exactly once, at the end.
    assert!(matches!(log[log.len() - 1], HwAction::ReleaseChipSelect));
    assert_eq!(count_matching(log, |a| matches!(a, HwAction::ReleaseChipSelect)), 1);
    // The data phase was never reached.
    assert_eq!(count_matching(log, |a| matches!(a, HwAction::StartNonBlocking(_))), 0);
    // The dispatcher still releases the token and the pipeline moves on.
    assert!(d.complete_request().is_ok());
    let mut e2 = queue_request(&mut d, 0x2B, &[]);
    let mut bus2 = SimulatedBus::new();
    assert!(run_transfer(&mut e2, &mut bus2).is_ok());
    assert!(d.complete_request().is_ok());
}

#[test]
fn missing_completion_signal_times_out_and_releases_the_bus() {
    let mut d = new_driver();
    let mut e = queue_request(&mut d, 0x2A, &[0x01, 0x02]);
    // The interrupt never raises the completion signal.
    let mut bus = SimulatedBus::with_behavior(false, None);
    assert_eq!(run_transfer(&mut e, &mut bus), Err(SpiError::Timeout));
    let log = bus.log();
    assert!(matches!(log[log.len() - 1], HwAction::ReleaseChipSelect));
    assert_eq!(count_matching(log, |a| matches!(a, HwAction::ReleaseChipSelect)), 1);
    // The timed-out wait leaves the signal clear for the next transfer.
    assert!(!bus.completion_raised());
    assert!(d.complete_request().is_ok());
}

#[test]
fn completion_signal_is_consumed_exactly_once_per_transfer() {
    let mut d = new_driver();
    let mut bus = SimulatedBus::new();
    let mut e = queue_request(&mut d, 0x2A, &[0x01, 0x02, 0x03]);
    assert!(run_transfer(&mut e, &mut bus).is_ok());
    assert!(d.complete_request().is_ok());
    // One non-blocking start, one wait, and the signal ends consumed.
    assert!(!bus.completion_raised());
    assert_eq!(
        count_matching(bus.log(), |a| matches!(a, HwAction::StartNonBlocking(_))),
        1
    );
    assert_eq!(
        count_matching(bus.log(), |a| matches!(a, HwAction::AwaitCompletion)),
        1
    );
    // A second multi-byte transfer works from the clean signal state.
    let mut e2 = queue_request(&mut d, 0x2B, &[0x04, 0x05]);
    assert!(run_transfer(&mut e2, &mut bus).is_ok());
    assert!(d.complete_request().is_ok());
    assert!(!bus.completion_raised());
}
