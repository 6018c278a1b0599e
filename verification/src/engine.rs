//! The hardware transfer engine: the per-request state machine.
//!
//! One engine exists per queued request while the dispatcher processes it.
//! The engine never touches hardware itself: [`TransferEngine::next_action`]
//! says which hardware action to perform next, the caller performs it (on the
//! physical bus, or on [`crate::sim::SimulatedBus`]) and reports the outcome
//! to [`TransferEngine::advance`].  The transition relation is the spec
//! function [`spec_step`], so the exact action sequence of every request is a
//! provable fact.
//!
//! Transfer-size rule: the hardware mis-clocks single-byte transfers on the
//! non-blocking path, so one byte always goes through the blocking primitive,
//! more than one byte goes through the non-blocking primitive followed by a
//! completion wait, and zero bytes are skipped entirely.  Chip-select is
//! released on every exit path, success or failure, so the bus is never left
//! held.

use vstd::prelude::*;

use crate::errors::SpiError;
use crate::request::QueuedRequest;

verus! {

/// The bound, in milliseconds, that a port should apply to every suspension:
/// the throttle-token acquisition and the completion wait.  All waits in the
/// pipeline are bounded, never unbounded, to preserve liveness; a wait that
/// exceeds this bound is reported as a timed-out outcome.
pub const BOUNDED_WAIT_MS: u32 = 30000;

/// The level of the command/data control line.
#[derive(Clone, Copy, Debug, PartialEq, Eq, Structural)]
pub enum LineLevel {
    /// The peripheral reads the transferred bytes as a command.
    Command,
    /// The peripheral reads the transferred bytes as data.
    Data,
}

/// One hardware action, as handed to whoever drives the physical bus.
pub enum HwAction {
    /// Drive the command/data control line to the given level.
    SetControlLine(LineLevel),
    /// Assert chip-select (start of the request's span on the bus).
    AssertChipSelect,
    /// Transfer the bytes through the blocking single-transfer primitive.
    TransferBlocking(Vec<u8>),
    /// Start the non-blocking transfer of the bytes.
    StartNonBlocking(Vec<u8>),
    /// Wait, up to the configured bound, for the completion signal of the
    /// non-blocking transfer started last.
    AwaitCompletion,
    /// Let the peripheral settle for the given number of milliseconds.
    SettleDelay(u32),
    /// Release chip-select (end of the request's span on the bus).
    ReleaseChipSelect,
}

/// The abstract value of a hardware action.
pub ghost enum HwActionView {
    SetControlLine(LineLevel),
    AssertChipSelect,
    TransferBlocking(Seq<u8>),
    StartNonBlocking(Seq<u8>),
    AwaitCompletion,
    SettleDelay(u32),
    ReleaseChipSelect,
}

impl View for HwAction {
    type V = HwActionView;

    open spec fn view(&self) -> HwActionView {
        match self {
            HwAction::SetControlLine(l) => HwActionView::SetControlLine(*l),
            HwAction::AssertChipSelect => HwActionView::AssertChipSelect,
            HwAction::TransferBlocking(b) => HwActionView::TransferBlocking(b@),
            HwAction::StartNonBlocking(b) => HwActionView::StartNonBlocking(b@),
            HwAction::AwaitCompletion => HwActionView::AwaitCompletion,
            HwAction::SettleDelay(ms) => HwActionView::SettleDelay(*ms),
            HwAction::ReleaseChipSelect => HwActionView::ReleaseChipSelect,
        }
    }
}

/// The outcome of one hardware action, as reported back to the engine.
#[derive(Clone, Copy, Debug, PartialEq, Eq, Structural)]
pub enum HwOutcome {
    /// The action completed.
    Completed,
    /// The underlying primitive reported a failure.
    Failed,
    /// The bounded wait elapsed without a completion signal.
    TimedOut,
}

/// The engine's phase.  A request walks forward through these phases; any
/// failure jumps to `Deselecting`, so chip-select is released on every path.
#[derive(Clone, Copy, Debug, PartialEq, Eq, Structural)]
pub enum TransferPhase {
    /// Drive the control line to the command level.
    SelectingCommandLevel,
    /// Assert chip-select.
    AssertingSelect,
    /// Transfer the command byte (always exactly one byte, blocking).
    TransferringCommand,
    /// Let the peripheral settle after a command that needs it.
    Settling,
    /// Drive the control line to the data level.
    SelectingDataLevel,
    /// Transfer the data bytes (blocking for one byte, non-blocking for
    /// more; never entered for zero data bytes).
    TransferringData,
    /// Wait for the completion signal of the non-blocking transfer.
    AwaitingCompletion,
    /// Release chip-select, on success and on failure alike.
    Deselecting,
    /// The request is finished; its result is available.
    Done,
}

/// The abstract state of a transfer engine.
#[verifier::ext_equal]
pub ghost struct EngineView {
    /// The request payload: the command byte followed by the data bytes.
    pub bytes: Seq<u8>,
    /// The settle delay for this command byte, in milliseconds; zero means
    /// no settling phase.
    pub delay_ms: u32,
    /// The current phase.
    pub phase: TransferPhase,
    /// The failure recorded so far, if any.
    pub failure: Option<SpiError>,
}

/// Engine well-formedness: the payload holds at least the command byte.
pub open spec fn engine_wf(v: EngineView) -> bool {
    v.bytes.len() >= 1
}

/// The data bytes of the payload: everything after the command byte.
pub open spec fn spec_data(v: EngineView) -> Seq<u8> {
    v.bytes.drop_first()
}

/// A strictly decreasing measure over the phases, for termination.
pub open spec fn phase_rank(p: TransferPhase) -> nat {
    match p {
        TransferPhase::SelectingCommandLevel => 8,
        TransferPhase::AssertingSelect => 7,
        TransferPhase::TransferringCommand => 6,
        TransferPhase::Settling => 5,
        TransferPhase::SelectingDataLevel => 4,
        TransferPhase::TransferringData => 3,
        TransferPhase::AwaitingCompletion => 2,
        TransferPhase::Deselecting => 1,
        TransferPhase::Done => 0,
    }
}

/// The action the engine asks for in its current phase.  Meaningless at
/// `Done`, where no action is requested.
pub open spec fn spec_next_action(v: EngineView) -> HwActionView {
    match v.phase {
        TransferPhase::SelectingCommandLevel => HwActionView::SetControlLine(LineLevel::Command),
        TransferPhase::AssertingSelect => HwActionView::AssertChipSelect,
        TransferPhase::TransferringCommand => HwActionView::TransferBlocking(seq![v.bytes[0]]),
        TransferPhase::Settling => HwActionView::SettleDelay(v.delay_ms),
        TransferPhase::SelectingDataLevel => HwActionView::SetControlLine(LineLevel::Data),
        TransferPhase::TransferringData => if spec_data(v).len() == 1 {
            HwActionView::TransferBlocking(spec_data(v))
        } else {
            HwActionView::StartNonBlocking(spec_data(v))
        },
        TransferPhase::AwaitingCompletion => HwActionView::AwaitCompletion,
        TransferPhase::Deselecting => HwActionView::ReleaseChipSelect,
        TransferPhase::Done => HwActionView::ReleaseChipSelect,
    }
}

/// The error an adverse outcome records: a timed-out wait is a `Timeout`,
/// any other failure a `DeviceError`.
pub open spec fn outcome_error(oc: HwOutcome) -> SpiError {
    match oc {
        HwOutcome::TimedOut => SpiError::Timeout,
        _ => SpiError::DeviceError,
    }
}

/// The transition relation: the engine's next state after its requested
/// action ended with the given outcome.  Any adverse outcome records the
/// request's first error and jumps to `Deselecting`, so chip-select is
/// released regardless; the phases after the command byte skip the settling
/// phase when no delay is configured and the whole data phase when the
/// request has no data bytes.
pub open spec fn spec_step(v: EngineView, oc: HwOutcome) -> EngineView {
    if !(v.phase is Deselecting) && !(v.phase is Done) && !(oc is Completed) {
        EngineView { phase: TransferPhase::Deselecting, failure: Some(outcome_error(oc)), ..v }
    } else {
        match v.phase {
            TransferPhase::SelectingCommandLevel => EngineView {
                phase: TransferPhase::AssertingSelect,
                ..v
            },
            TransferPhase::AssertingSelect => EngineView {
                phase: TransferPhase::TransferringCommand,
                ..v
            },
            TransferPhase::TransferringCommand => EngineView {
                phase: if v.delay_ms > 0 {
                    TransferPhase::Settling
                } else if spec_data(v).len() > 0 {
                    TransferPhase::SelectingDataLevel
                } else {
                    TransferPhase::Deselecting
                },
                ..v
            },
            TransferPhase::Settling => EngineView {
                phase: if spec_data(v).len() > 0 {
                    TransferPhase::SelectingDataLevel
                } else {
                    TransferPhase::Deselecting
                },
                ..v
            },
            TransferPhase::SelectingDataLevel => EngineView {
                phase: TransferPhase::TransferringData,
                ..v
            },
            TransferPhase::TransferringData => EngineView {
                phase: if spec_data(v).len() > 1 {
                    TransferPhase::AwaitingCompletion
                } else {
                    TransferPhase::Deselecting
                },
                ..v
            },
            TransferPhase::AwaitingCompletion => EngineView {
                phase: TransferPhase::Deselecting,
                ..v
            },
            TransferPhase::Deselecting => EngineView { phase: TransferPhase::Done, ..v },
            TransferPhase::Done => v,
        }
    }
}

/// The exact action sequence of a request whose every phase completes: the
/// control line at command level and chip-select asserted, the command byte
/// through the blocking primitive, the settle delay when one is configured,
/// then the data bytes (skipped when empty, blocking for one byte,
/// non-blocking with a completion wait for more), and one chip-select
/// release at the end.
pub open spec fn spec_success_actions(bytes: Seq<u8>, delay_ms: u32) -> Seq<HwActionView> {
    let data = bytes.drop_first();
    seq![
        HwActionView::SetControlLine(LineLevel::Command),
        HwActionView::AssertChipSelect,
        HwActionView::TransferBlocking(seq![bytes[0]]),
    ] + (if delay_ms > 0 {
        seq![HwActionView::SettleDelay(delay_ms)]
    } else {
        Seq::<HwActionView>::empty()
    }) + (if data.len() == 0 {
        Seq::<HwActionView>::empty()
    } else if data.len() == 1 {
        seq![HwActionView::SetControlLine(LineLevel::Data), HwActionView::TransferBlocking(data)]
    } else {
        seq![
            HwActionView::SetControlLine(LineLevel::Data),
            HwActionView::StartNonBlocking(data),
            HwActionView::AwaitCompletion,
        ]
    }) + seq![HwActionView::ReleaseChipSelect]
}

/// The request's result once the engine is done.
pub open spec fn spec_result(v: EngineView) -> Result<(), SpiError> {
    match v.failure {
        None => Ok(()),
        Some(e) => Err(e),
    }
}

/// The settle delay configured for a command byte: the latest table entry
/// for that byte, or zero when the table has none.
pub open spec fn spec_delay_for(table: Seq<(u8, u32)>, cmd: u8) -> u32
    decreases table.len(),
{
    if table.len() == 0 {
        0u32
    } else if table.last().0 == cmd {
        table.last().1
    } else {
        spec_delay_for(table.drop_last(), cmd)
    }
}

/// Looks up the settle delay for a command byte.
pub fn lookup_delay(table: &Vec<(u8, u32)>, cmd: u8) -> (r: u32)
    ensures
        r == spec_delay_for(table@, cmd),
{
    let mut found: u32 = 0;
    let mut i: usize = 0;
    while i < table.len()
        invariant
            0 <= i <= table@.len(),
            found == spec_delay_for(table@.take(i as int), cmd),
        decreases table@.len() - i,
    {
        let entry = table[i];
        if entry.0 == cmd {
            found = entry.1;
        }
        proof {
            assert(table@.take(i + 1 as int).drop_last() =~= table@.take(i as int));
            assert(table@.take(i + 1 as int).last() == table@[i as int]);
        }
        i = i + 1;
    }
    proof {
        assert(table@.take(table@.len() as int) =~= table@);
    }
    found
}

/// The per-request hardware transfer state machine.
pub struct TransferEngine {
    bytes: Vec<u8>,
    delay_ms: u32,
    phase: TransferPhase,
    failure: Option<SpiError>,
}

impl View for TransferEngine {
    type V = EngineView;

    closed spec fn view(&self) -> EngineView {
        EngineView {
            bytes: self.bytes@,
            delay_ms: self.delay_ms,
            phase: self.phase,
            failure: self.failure,
        }
    }
}

impl TransferEngine {
    /// Starts the state machine for one queued request, looking the settle
    /// delay for its command byte up in the given table.
    pub fn begin(req: QueuedRequest, table: &Vec<(u8, u32)>) -> (e: Self)
        requires
            req@.len() >= 1,
        ensures
            engine_wf(e@),
            e@ == (EngineView {
                bytes: req@,
                delay_ms: spec_delay_for(table@, req@[0]),
                phase: TransferPhase::SelectingCommandLevel,
                failure: None,
            }),
    {
        let cmd = req.command_byte();
        let delay_ms = lookup_delay(table, cmd);
        TransferEngine {
            bytes: req.into_bytes(),
            delay_ms,
            phase: TransferPhase::SelectingCommandLevel,
            failure: None,
        }
    }

    /// Whether the request is finished.
    pub fn is_done(&self) -> (b: bool)
        ensures
            b == (self@.phase is Done),
    {
        self.phase == TransferPhase::Done
    }

    /// The next hardware action to perform.
    pub fn next_action(&self) -> (a: HwAction)
        requires
            engine_wf(self@),
            !(self@.phase is Done),
        ensures
            a@ == spec_next_action(self@),
    {
        match self.phase {
            TransferPhase::SelectingCommandLevel => HwAction::SetControlLine(LineLevel::Command),
            TransferPhase::AssertingSelect => HwAction::AssertChipSelect,
            TransferPhase::TransferringCommand => {
                let mut b: Vec<u8> = Vec::new();
                b.push(self.bytes[0]);
                proof {
                    assert(b@ =~= seq![self@.bytes[0]]);
                }
                HwAction::TransferBlocking(b)
            },
            TransferPhase::Settling => HwAction::SettleDelay(self.delay_ms),
            TransferPhase::SelectingDataLevel => HwAction::SetControlLine(LineLevel::Data),
            TransferPhase::TransferringData => {
                let data = self.data_bytes();
                if data.len() == 1 {
                    HwAction::TransferBlocking(data)
                } else {
                    HwAction::StartNonBlocking(data)
                }
            },
            TransferPhase::AwaitingCompletion => HwAction::AwaitCompletion,
            TransferPhase::Deselecting => HwAction::ReleaseChipSelect,
            TransferPhase::Done => HwAction::ReleaseChipSelect,
        }
    }

    /// A copy of the request's data bytes.
    fn data_bytes(&self) -> (r: Vec<u8>)
        requires
            engine_wf(self@),
        ensures
            r@ == spec_data(self@),
    {
        let mut r: Vec<u8> = Vec::new();
        let mut i: usize = 1;
        while i < self.bytes.len()
            invariant
                1 <= i <= self@.bytes.len(),
                self@.bytes.len() >= 1,
                r@ == self@.bytes.subrange(1, i as int),
            decreases self@.bytes.len() - i,
        {
            r.push(self.bytes[i]);
            proof {
                assert(self@.bytes.subrange(1, i + 1 as int) =~= self@.bytes.subrange(
                    1,
                    i as int,
                ).push(self@.bytes[i as int]));
            }
            i = i + 1;
        }
        proof {
            assert(self@.bytes.subrange(1, self@.bytes.len() as int) =~= spec_data(self@));
        }
        r
    }

    /// Moves the state machine forward: the requested action ended with the
    /// given outcome.
    pub fn advance(&mut self, outcome: HwOutcome)
        requires
            engine_wf(old(self)@),
            !(old(self)@.phase is Done),
        ensures
            engine_wf(final(self)@),
            final(self)@ == spec_step(old(self)@, outcome),
    {
        if !matches!(self.phase, TransferPhase::Deselecting) && !matches!(
            outcome,
            HwOutcome::Completed,
        ) {
            self.failure = Some(
                match outcome {
                    HwOutcome::TimedOut => SpiError::Timeout,
                    _ => SpiError::DeviceError,
                },
            );
            self.phase = TransferPhase::Deselecting;
            return;
        }
        let has_data = self.bytes.len() > 1;
        self.phase = match self.phase {
            TransferPhase::SelectingCommandLevel => TransferPhase::AssertingSelect,
            TransferPhase::AssertingSelect => TransferPhase::TransferringCommand,
            TransferPhase::TransferringCommand => if self.delay_ms > 0 {
                TransferPhase::Settling
            } else if has_data {
                TransferPhase::SelectingDataLevel
            } else {
                TransferPhase::Deselecting
            },
            TransferPhase::Settling => if has_data {
                TransferPhase::SelectingDataLevel
            } else {
                TransferPhase::Deselecting
            },
            TransferPhase::SelectingDataLevel => TransferPhase::TransferringData,
            TransferPhase::TransferringData => if self.bytes.len() > 2 {
                TransferPhase::AwaitingCompletion
            } else {
                TransferPhase::Deselecting
            },
            TransferPhase::AwaitingCompletion => TransferPhase::Deselecting,
            TransferPhase::Deselecting => TransferPhase::Done,
            TransferPhase::Done => TransferPhase::Done,
        };
    }

    /// The request's result: `Ok` when every phase completed, otherwise the
    /// first error recorded.
    pub fn result(&self) -> (r: Result<(), SpiError>)
        requires
            self@.phase is Done,
        ensures
            r == spec_result(self@),
    {
        match self.failure {
            None => Ok(()),
            Some(e) => Err(e),
        }
    }
}

} // verus!
