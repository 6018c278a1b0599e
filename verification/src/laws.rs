//! The pipeline's laws, proved over the spec transitions of
//! [`crate::model`], [`crate::engine`] and [`crate::sim`].
//!
//! Every executable operation promises that its effect equals the
//! corresponding spec transition, so each law here is a statement about every
//! reachable run of the pipeline, not about chosen inputs.

use vstd::prelude::*;

use crate::driver::spec_default_delays;
use crate::engine::{
    engine_wf, phase_rank, spec_data, spec_delay_for, spec_next_action, spec_result, spec_step,
    spec_success_actions, EngineView, HwActionView, HwOutcome, TransferPhase,
};
use crate::errors::SpiError;
use crate::model::{
    spec_complete, spec_flush, spec_submit_data, spec_take_next, wf, DriverView,
};
use crate::sim::{spec_perform, spec_run, BusView};

verus! {

/// The total number of data bytes in a sequence of submissions.
pub open spec fn total_len(writes: Seq<Seq<u8>>) -> int
    decreases writes.len(),
{
    if writes.len() == 0 {
        0
    } else {
        writes.first().len() + total_len(writes.drop_first())
    }
}

/// The concatenation of a sequence of submissions, in call order.
pub open spec fn concat_all(writes: Seq<Seq<u8>>) -> Seq<u8>
    decreases writes.len(),
{
    if writes.len() == 0 {
        Seq::empty()
    } else {
        writes.first() + concat_all(writes.drop_first())
    }
}

/// The driver state after a sequence of data submissions, and whether every
/// one of them succeeded.
pub open spec fn apply_submit_data(v: DriverView, writes: Seq<Seq<u8>>) -> (DriverView, bool)
    decreases writes.len(),
{
    if writes.len() == 0 {
        (v, true)
    } else {
        let first = spec_submit_data(v, writes.first());
        let rest = apply_submit_data(first.0, writes.drop_first());
        (rest.0, first.1 is Ok && rest.1)
    }
}

proof fn lemma_total_len_nonneg(writes: Seq<Seq<u8>>)
    ensures
        total_len(writes) >= 0,
    decreases writes.len(),
{
    if writes.len() > 0 {
        lemma_total_len_nonneg(writes.drop_first());
    }
}

/// Law: with a command byte set, every sequence of data submissions whose
/// total length fits the configured capacity succeeds in full, and the
/// pending data ends as the concatenation of the submissions in call order.
pub proof fn law_data_accumulates(v: DriverView, writes: Seq<Seq<u8>>)
    requires
        wf(v),
        v.cmd is Some,
        v.data.len() + total_len(writes) <= v.max_pending,
    ensures
        apply_submit_data(v, writes).1,
        apply_submit_data(v, writes).0 == (DriverView { data: v.data + concat_all(writes), ..v }),
    decreases writes.len(),
{
    if writes.len() == 0 {
        assert(v.data + concat_all(writes) =~= v.data);
        assert((DriverView { data: v.data + concat_all(writes), ..v }) =~= v);
    } else {
        let first = writes.first();
        let rest = writes.drop_first();
        lemma_total_len_nonneg(rest);
        let v1 = spec_submit_data(v, first).0;
        law_data_accumulates(v1, rest);
        assert((v.data + first) + concat_all(rest) =~= v.data + concat_all(writes));
        assert(apply_submit_data(v, writes).0 =~= (DriverView {
            data: v.data + concat_all(writes),
            ..v
        }));
    }
}

/// Law: a successful flush enqueues exactly the pending payload — the command
/// byte followed by the accumulated data — at the back of the submission
/// queue.  Success is owed whenever a throttle token is free.
pub proof fn law_flush_enqueues(v: DriverView)
    requires
        wf(v),
        v.cmd is Some,
        v.in_flight < v.max_in_flight,
    ensures
        spec_flush(v).1 == Ok::<(), SpiError>(()),
        spec_flush(v).0.queue == v.queue.push(seq![v.cmd.unwrap()] + v.data),
        spec_flush(v).0.in_flight == v.in_flight + 1,
{
}

/// Law: data submitted before any command byte is rejected with
/// `ProtocolViolation` and leaves the driver — including the pending
/// request — unchanged.
pub proof fn law_data_before_command_rejected(v: DriverView, d: Seq<u8>)
    requires
        v.cmd is None,
    ensures
        spec_submit_data(v, d).0 == v,
        spec_submit_data(v, d).1 == Err::<(), SpiError>(SpiError::ProtocolViolation),
{
}

/// Law: a flush with nothing pending is a no-op returning success, and stays
/// one when repeated.
pub proof fn law_flush_empty_noop(v: DriverView)
    requires
        wf(v),
        v.cmd is None,
    ensures
        spec_flush(v) == (v, Ok::<(), SpiError>(())),
        spec_flush(spec_flush(v).0) == (v, Ok::<(), SpiError>(())),
{
}

/// Law: the throttle gate bounds the in-flight requests.  A flush never
/// pushes the count past the configured bound; with every token held, a
/// flush of a pending request fails with `Timeout` (and still clears the
/// accumulator), and the count stays put.
pub proof fn law_throttle_bound(v: DriverView)
    requires
        wf(v),
    ensures
        wf(spec_flush(v).0),
        spec_flush(v).0.in_flight <= v.max_in_flight,
        v.in_flight == v.max_in_flight && v.cmd is Some ==> spec_flush(v).1 == Err::<
            (),
            SpiError,
        >(SpiError::Timeout) && spec_flush(v).0.in_flight == v.in_flight,
{
}

/// Law: requests leave the queue in exactly the order they were enqueued.
/// Together with [`law_flush_enqueues`] (each flush appends at the back)
/// this is the FIFO guarantee: a request enqueued first is handed to the
/// transfer engine first.
pub proof fn law_fifo_order(v: DriverView)
    requires
        wf(v),
        v.queue.len() >= 2,
    ensures
        spec_take_next(v).1 == Some(v.queue[0]),
        spec_take_next(spec_take_next(v).0).1 == Some(v.queue[1]),
{
}

/// Law: completing a dequeued request releases exactly one throttle token,
/// and a release with no outstanding dequeued request is rejected as
/// `QueueError`.
pub proof fn law_complete_releases(v: DriverView)
    requires
        wf(v),
    ensures
        wf(spec_complete(v).0),
        v.in_flight > v.queue.len() ==> spec_complete(v) == (
            (DriverView { in_flight: v.in_flight - 1, ..v }),
            Ok::<(), SpiError>(()),
        ),
        v.in_flight == v.queue.len() ==> spec_complete(v) == (v, Err::<(), SpiError>(
            SpiError::QueueError,
        )),
{
}

/// The actions of a run that is already deselecting: chip-select is
/// released — whatever the outcome of that action — and the run is done.
proof fn lemma_run_from_deselecting(e: EngineView, b: BusView)
    requires
        e.phase is Deselecting,
    ensures
        spec_run(e, b).0 == (EngineView { phase: TransferPhase::Done, ..e }),
        spec_run(e, b).1 == (BusView { log: b.log.push(HwActionView::ReleaseChipSelect), ..b }),
{
    let a0 = spec_next_action(e);
    let b1 = spec_perform(b, a0).0;
    let e1 = spec_step(e, spec_perform(b, a0).1);
    assert(spec_run(e, b) == spec_run(e1, b1));
    assert(spec_run(e1, b1) == (e1, b1));
}

/// The actions of a clean data phase, from the control line's switch to the
/// data level up to the chip-select release.
spec fn data_phase_actions(data: Seq<u8>) -> Seq<HwActionView> {
    if data.len() == 1 {
        seq![
            HwActionView::SetControlLine(crate::engine::LineLevel::Data),
            HwActionView::TransferBlocking(data),
            HwActionView::ReleaseChipSelect,
        ]
    } else {
        seq![
            HwActionView::SetControlLine(crate::engine::LineLevel::Data),
            HwActionView::StartNonBlocking(data),
            HwActionView::AwaitCompletion,
            HwActionView::ReleaseChipSelect,
        ]
    }
}

/// A clean run of the data phase: one byte goes through the blocking
/// primitive; more bytes go through the non-blocking primitive, whose
/// completion signal is raised and then consumed exactly once.
proof fn lemma_run_data_phase(e: EngineView, b: BusView)
    requires
        engine_wf(e),
        e.phase is SelectingDataLevel,
        spec_data(e).len() >= 1,
        b.fail_at is None,
        b.raise_on_start,
        !b.raised,
    ensures
        spec_run(e, b).0 == (EngineView { phase: TransferPhase::Done, ..e }),
        spec_run(e, b).1 == (BusView { log: b.log + data_phase_actions(spec_data(e)), ..b }),
{
    let a0 = spec_next_action(e);
    let b1 = spec_perform(b, a0).0;
    let e1 = spec_step(e, spec_perform(b, a0).1);
    assert(spec_run(e, b) == spec_run(e1, b1));
    let a1 = spec_next_action(e1);
    let b2 = spec_perform(b1, a1).0;
    let e2 = spec_step(e1, spec_perform(b1, a1).1);
    assert(spec_run(e1, b1) == spec_run(e2, b2));
    if spec_data(e).len() == 1 {
        lemma_run_from_deselecting(e2, b2);
        assert(spec_run(e, b).1.log =~= b.log + data_phase_actions(spec_data(e)));
        assert(spec_run(e, b).1 =~= (BusView {
            log: b.log + data_phase_actions(spec_data(e)),
            ..b
        }));
    } else {
        let a2 = spec_next_action(e2);
        let b3 = spec_perform(b2, a2).0;
        let e3 = spec_step(e2, spec_perform(b2, a2).1);
        assert(spec_run(e2, b2) == spec_run(e3, b3));
        lemma_run_from_deselecting(e3, b3);
        assert(spec_run(e, b).1.log =~= b.log + data_phase_actions(spec_data(e)));
        assert(spec_run(e, b).1 =~= (BusView {
            log: b.log + data_phase_actions(spec_data(e)),
            ..b
        }));
    }
}

/// Law: on a bus where nothing fails and every non-blocking transfer is
/// completed, a transfer run performs exactly the success action sequence of
/// its request, ends without error, and leaves the completion signal
/// consumed.
pub proof fn law_clean_run_trace(e: EngineView, b: BusView)
    requires
        engine_wf(e),
        e.phase is SelectingCommandLevel,
        e.failure is None,
        b.fail_at is None,
        b.raise_on_start,
        !b.raised,
    ensures
        spec_run(e, b).0.phase is Done,
        spec_run(e, b).0.failure is None,
        spec_result(spec_run(e, b).0) == Ok::<(), SpiError>(()),
        spec_run(e, b).1.log == b.log + spec_success_actions(e.bytes, e.delay_ms),
        !spec_run(e, b).1.raised,
{
    let a0 = spec_next_action(e);
    let b1 = spec_perform(b, a0).0;
    let e1 = spec_step(e, spec_perform(b, a0).1);
    assert(spec_run(e, b) == spec_run(e1, b1));
    let a1 = spec_next_action(e1);
    let b2 = spec_perform(b1, a1).0;
    let e2 = spec_step(e1, spec_perform(b1, a1).1);
    assert(spec_run(e1, b1) == spec_run(e2, b2));
    let a2 = spec_next_action(e2);
    let b3 = spec_perform(b2, a2).0;
    let e3 = spec_step(e2, spec_perform(b2, a2).1);
    assert(spec_run(e2, b2) == spec_run(e3, b3));
    if e.delay_ms > 0 {
        let a3 = spec_next_action(e3);
        let b4 = spec_perform(b3, a3).0;
        let e4 = spec_step(e3, spec_perform(b3, a3).1);
        assert(spec_run(e3, b3) == spec_run(e4, b4));
        if spec_data(e).len() == 0 {
            lemma_run_from_deselecting(e4, b4);
        } else {
            lemma_run_data_phase(e4, b4);
        }
    } else {
        if spec_data(e).len() == 0 {
            lemma_run_from_deselecting(e3, b3);
        } else {
            lemma_run_data_phase(e3, b3);
        }
    }
    assert(spec_run(e, b).1.log =~= b.log + spec_success_actions(e.bytes, e.delay_ms));
}

/// Law: the delay table installed by initialization settles the hardware
/// reset, sleep-out and display-on commands for 200 ms, and no other command
/// byte.
pub proof fn law_default_delays(cmd: u8)
    ensures
        spec_delay_for(spec_default_delays(), 0x01) == 200,
        spec_delay_for(spec_default_delays(), 0x11) == 200,
        spec_delay_for(spec_default_delays(), 0x29) == 200,
        cmd != 0x01 && cmd != 0x11 && cmd != 0x29 ==> spec_delay_for(
            spec_default_delays(),
            cmd,
        ) == 0,
{
    let t = spec_default_delays();
    let t1 = t.drop_last();
    let t2 = t1.drop_last();
    let t3 = t2.drop_last();
    assert(t.last() == (0x29u8, 200u32));
    assert(t1 =~= seq![(0x01u8, 200u32), (0x11u8, 200u32)]);
    assert(t1.last() == (0x11u8, 200u32));
    assert(t2 =~= seq![(0x01u8, 200u32)]);
    assert(t2.last() == (0x01u8, 200u32));
    assert(t3 =~= Seq::<(u8, u32)>::empty());
    assert(spec_delay_for(t, 0x01) == spec_delay_for(t1, 0x01));
    assert(spec_delay_for(t1, 0x01) == spec_delay_for(t2, 0x01));
    assert(spec_delay_for(t2, 0x01) == 200);
    assert(spec_delay_for(t, 0x11) == spec_delay_for(t1, 0x11));
    assert(spec_delay_for(t1, 0x11) == 200);
    if cmd != 0x01 && cmd != 0x11 && cmd != 0x29 {
        assert(spec_delay_for(t, cmd) == spec_delay_for(t1, cmd));
        assert(spec_delay_for(t1, cmd) == spec_delay_for(t2, cmd));
        assert(spec_delay_for(t2, cmd) == spec_delay_for(t3, cmd));
        assert(spec_delay_for(t3, cmd) == 0);
    }
}

/// Law: a hardware failure is fatal for its request and nothing else.  An
/// adverse outcome in any active phase jumps straight to deselecting — no
/// retry, no further transfer — and the finished run reports that first
/// error: a timed-out completion wait as `Timeout`, any other failure as
/// `DeviceError`.
pub proof fn law_failure_is_fatal(v: EngineView, oc: HwOutcome, b: BusView)
    requires
        engine_wf(v),
        !(v.phase is Done),
        !(v.phase is Deselecting),
        !(oc is Completed),
    ensures
        spec_step(v, oc).phase is Deselecting,
        spec_step(v, oc).failure == Some(crate::engine::outcome_error(oc)),
        spec_result(spec_run(spec_step(v, oc), b).0) == Err::<(), SpiError>(
            crate::engine::outcome_error(oc),
        ),
{
    lemma_run_from_deselecting(spec_step(v, oc), b);
}

/// How many chip-select releases a sequence of actions holds.
pub open spec fn count_releases(s: Seq<HwActionView>) -> int
    decreases s.len(),
{
    if s.len() == 0 {
        0
    } else {
        count_releases(s.drop_last()) + if s.last() is ReleaseChipSelect {
            1int
        } else {
            0int
        }
    }
}

proof fn lemma_count_releases_concat(x: Seq<HwActionView>, y: Seq<HwActionView>)
    ensures
        count_releases(x + y) == count_releases(x) + count_releases(y),
    decreases y.len(),
{
    if y.len() == 0 {
        assert(x + y =~= x);
    } else {
        lemma_count_releases_concat(x, y.drop_last());
        assert((x + y).drop_last() =~= x + y.drop_last());
        assert((x + y).last() == y.last());
    }
}

/// Law: however a run ends — success, device failure or timeout — the
/// actions it performs contain exactly one chip-select release, and it is
/// the last of them: the bus is never left held and never released twice.
pub proof fn law_chip_select_released_once(e: EngineView, b: BusView)
    requires
        engine_wf(e),
        !(e.phase is Done),
    ensures
        spec_run(e, b).0.phase is Done,
        spec_run(e, b).1.log.len() > b.log.len(),
        spec_run(e, b).1.log.subrange(0, b.log.len() as int) == b.log,
        spec_run(e, b).1.log.last() is ReleaseChipSelect,
        count_releases(spec_run(e, b).1.log.skip(b.log.len() as int)) == 1,
    decreases phase_rank(e.phase),
{
    let a0 = spec_next_action(e);
    let b1 = spec_perform(b, a0).0;
    let e1 = spec_step(e, spec_perform(b, a0).1);
    assert(spec_run(e, b) == spec_run(e1, b1));
    assert(count_releases(Seq::<HwActionView>::empty()) == 0);
    if e.phase is Deselecting {
        assert(spec_run(e1, b1) == (e1, b1));
        let ext = spec_run(e, b).1.log.skip(b.log.len() as int);
        assert(ext =~= seq![HwActionView::ReleaseChipSelect]);
        assert(ext.drop_last() =~= Seq::<HwActionView>::empty());
        assert(count_releases(ext) == 1);
        assert(spec_run(e, b).1.log.subrange(0, b.log.len() as int) =~= b.log);
    } else {
        law_chip_select_released_once(e1, b1);
        let full = spec_run(e, b).1.log;
        let n = b.log.len() as int;
        let ext1 = full.skip(n + 1);
        let ext = full.skip(n);
        assert(b1.log.len() == n + 1);
        assert(b1.log[n] == a0);
        assert(full.subrange(0, n + 1) == b1.log);
        assert(full[n] == full.subrange(0, n + 1)[n]);
        assert(full[n] == a0);
        assert(full.subrange(0, n) =~= b.log);
        assert(ext =~= seq![a0] + ext1);
        lemma_count_releases_concat(seq![a0], ext1);
        assert(seq![a0].drop_last() =~= Seq::<HwActionView>::empty());
        assert(!(a0 is ReleaseChipSelect));
        assert(count_releases(seq![a0]) == 0);
        assert(count_releases(ext) == 1);
    }
}

/// The bytes a sequence of actions moves across the bus: the payloads of its
/// transfer actions, in order.
pub open spec fn moved_bytes(s: Seq<HwActionView>) -> Seq<u8>
    decreases s.len(),
{
    if s.len() == 0 {
        Seq::empty()
    } else {
        moved_bytes(s.drop_last()) + match s.last() {
            HwActionView::TransferBlocking(b) => b,
            HwActionView::StartNonBlocking(b) => b,
            _ => Seq::empty(),
        }
    }
}

proof fn lemma_moved_bytes_concat(x: Seq<HwActionView>, y: Seq<HwActionView>)
    ensures
        moved_bytes(x + y) == moved_bytes(x) + moved_bytes(y),
    decreases y.len(),
{
    if y.len() == 0 {
        assert(x + y =~= x);
        assert(moved_bytes(x) + moved_bytes(y) =~= moved_bytes(x));
    } else {
        lemma_moved_bytes_concat(x, y.drop_last());
        assert((x + y).drop_last() =~= x + y.drop_last());
        assert((x + y).last() == y.last());
        assert(moved_bytes(x + y) =~= moved_bytes(x) + moved_bytes(y));
    }
}

proof fn lemma_moved_bytes_singleton(a: HwActionView)
    ensures
        moved_bytes(seq![a]) == match a {
            HwActionView::TransferBlocking(b) => b,
            HwActionView::StartNonBlocking(b) => b,
            _ => Seq::<u8>::empty(),
        },
{
    assert(seq![a].drop_last() =~= Seq::<HwActionView>::empty());
    assert(moved_bytes(Seq::<HwActionView>::empty()) == Seq::<u8>::empty());
    assert(moved_bytes(seq![a]) =~= match a {
        HwActionView::TransferBlocking(b) => b,
        HwActionView::StartNonBlocking(b) => b,
        _ => Seq::<u8>::empty(),
    });
}

/// Law: a run whose every phase completes moves exactly the request's bytes
/// across the bus — the command byte, then the data bytes — nothing more,
/// nothing less, nothing reordered.  With [`law_clean_run_trace`] and
/// [`law_fifo_order`] this closes the FIFO guarantee end to end: requests
/// leave the queue in enqueue order, and each run appends exactly its own
/// request's bytes to the bus before the next run starts.
pub proof fn law_run_moves_exactly_the_payload(bytes: Seq<u8>, delay_ms: u32)
    requires
        bytes.len() >= 1,
    ensures
        moved_bytes(spec_success_actions(bytes, delay_ms)) == bytes,
{
    let data = bytes.drop_first();
    let head = seq![
        HwActionView::SetControlLine(crate::engine::LineLevel::Command),
        HwActionView::AssertChipSelect,
        HwActionView::TransferBlocking(seq![bytes[0]]),
    ];
    let settle = if delay_ms > 0 {
        seq![HwActionView::SettleDelay(delay_ms)]
    } else {
        Seq::<HwActionView>::empty()
    };
    let data_part = if data.len() == 0 {
        Seq::<HwActionView>::empty()
    } else if data.len() == 1 {
        seq![
            HwActionView::SetControlLine(crate::engine::LineLevel::Data),
            HwActionView::TransferBlocking(data),
        ]
    } else {
        seq![
            HwActionView::SetControlLine(crate::engine::LineLevel::Data),
            HwActionView::StartNonBlocking(data),
            HwActionView::AwaitCompletion,
        ]
    };
    let release = seq![HwActionView::ReleaseChipSelect];

    assert(moved_bytes(head) == seq![bytes[0]]) by {
        let h01 = seq![
            HwActionView::SetControlLine(crate::engine::LineLevel::Command),
            HwActionView::AssertChipSelect,
        ];
        assert(head.drop_last() =~= h01);
        assert(h01.drop_last() =~= seq![
            HwActionView::SetControlLine(crate::engine::LineLevel::Command),
        ]);
        lemma_moved_bytes_singleton(HwActionView::SetControlLine(
            crate::engine::LineLevel::Command,
        ));
        assert(moved_bytes(h01) =~= Seq::<u8>::empty());
        assert(moved_bytes(head) =~= seq![bytes[0]]);
    }
    assert(moved_bytes(settle) == Seq::<u8>::empty()) by {
        if delay_ms > 0 {
            lemma_moved_bytes_singleton(HwActionView::SettleDelay(delay_ms));
        }
    }
    assert(moved_bytes(data_part) == data) by {
        if data.len() == 0 {
            assert(moved_bytes(data_part) =~= data);
        } else if data.len() == 1 {
            assert(data_part.drop_last() =~= seq![
                HwActionView::SetControlLine(crate::engine::LineLevel::Data),
            ]);
            lemma_moved_bytes_singleton(HwActionView::SetControlLine(
                crate::engine::LineLevel::Data,
            ));
            assert(moved_bytes(data_part) =~= data);
        } else {
            let d01 = seq![
                HwActionView::SetControlLine(crate::engine::LineLevel::Data),
                HwActionView::StartNonBlocking(data),
            ];
            assert(data_part.drop_last() =~= d01);
            assert(d01.drop_last() =~= seq![
                HwActionView::SetControlLine(crate::engine::LineLevel::Data),
            ]);
            lemma_moved_bytes_singleton(HwActionView::SetControlLine(
                crate::engine::LineLevel::Data,
            ));
            assert(moved_bytes(d01) =~= data);
            assert(moved_bytes(data_part) =~= data);
        }
    }
    lemma_moved_bytes_singleton(HwActionView::ReleaseChipSelect);
    lemma_moved_bytes_concat(head, settle);
    lemma_moved_bytes_concat(head + settle, data_part);
    lemma_moved_bytes_concat(head + settle + data_part, release);
    assert(spec_success_actions(bytes, delay_ms) == head + settle + data_part + release);
    assert(seq![bytes[0]] + Seq::<u8>::empty() + data + Seq::<u8>::empty() =~= bytes);
}

/// Law: transfer-size routing.  The command phase always transfers exactly
/// one byte through the blocking primitive; a one-byte data phase goes
/// through the blocking primitive; a longer data phase goes through the
/// non-blocking primitive; and a request with no data bytes never enters a
/// data phase at all.
pub proof fn law_transfer_routing(v: EngineView)
    requires
        engine_wf(v),
    ensures
        v.phase is TransferringCommand ==> spec_next_action(v) == HwActionView::TransferBlocking(
            seq![v.bytes[0]],
        ),
        v.phase is TransferringData && spec_data(v).len() == 1 ==> spec_next_action(v)
            == HwActionView::TransferBlocking(spec_data(v)),
        v.phase is TransferringData && spec_data(v).len() > 1 ==> spec_next_action(v)
            == HwActionView::StartNonBlocking(spec_data(v)),
        spec_data(v).len() == 0 && v.phase is TransferringCommand ==> (spec_step(
            v,
            HwOutcome::Completed,
        ).phase is Settling || spec_step(v, HwOutcome::Completed).phase is Deselecting),
        spec_data(v).len() == 0 && v.phase is Settling ==> spec_step(
            v,
            HwOutcome::Completed,
        ).phase is Deselecting,
{
}

} // verus!
