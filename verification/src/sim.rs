//! An in-memory bus: the recording collaborator stub.
//!
//! The simulated bus performs each hardware action by logging it, drives the
//! completion signal the way the completion interrupt would, and can be
//! scripted to fail an action or to withhold the completion signal, so every
//! scenario of the pipeline — including the device-error and timeout paths —
//! runs without hardware.  Its behaviour is the deterministic spec function
//! [`spec_perform`], and a whole transfer run is [`spec_run`].

use vstd::prelude::*;

use crate::engine::{
    engine_wf, phase_rank, spec_next_action, spec_result, spec_step, EngineView, HwAction,
    HwActionView, HwOutcome, TransferEngine,
};
use crate::errors::SpiError;
use crate::signal::CompletionSignal;

verus! {

/// The abstract state of the simulated bus.
#[verifier::ext_equal]
pub ghost struct BusView {
    /// Every action performed so far, in order.
    pub log: Seq<HwActionView>,
    /// Whether the completion signal is raised.
    pub raised: bool,
    /// Whether a non-blocking start raises the completion signal, as the
    /// hardware interrupt would; scripting `false` makes every completion
    /// wait time out.
    pub raise_on_start: bool,
    /// When set, the action performed at this position of the log fails.
    pub fail_at: Option<usize>,
}

/// Whether the action performed next is the scripted failing one.
pub open spec fn spec_fails_now(b: BusView) -> bool {
    match b.fail_at {
        Some(i) => i as int == b.log.len() as int,
        None => false,
    }
}

/// What performing one action does to the bus, and the outcome it reports:
/// the action is logged; a scripted failure reports `Failed` with no other
/// effect; a non-blocking start raises the completion signal when the bus is
/// set to, as the completion interrupt would; a completion wait consumes the
/// signal when it is raised and times out otherwise, leaving the signal clear
/// either way; every other action completes.
pub open spec fn spec_perform(b: BusView, a: HwActionView) -> (BusView, HwOutcome) {
    let pushed = BusView { log: b.log.push(a), ..b };
    if spec_fails_now(b) {
        (pushed, HwOutcome::Failed)
    } else {
        match a {
            HwActionView::StartNonBlocking(_) => (
                BusView { raised: b.raised || b.raise_on_start, ..pushed },
                HwOutcome::Completed,
            ),
            HwActionView::AwaitCompletion => if b.raised {
                (BusView { raised: false, ..pushed }, HwOutcome::Completed)
            } else {
                (pushed, HwOutcome::TimedOut)
            },
            _ => (pushed, HwOutcome::Completed),
        }
    }
}

/// A whole transfer run on the simulated bus: the engine is stepped with the
/// outcome of each of its actions until it is done.  Deterministic, so every
/// trace property of a run is a fact about this function.
pub open spec fn spec_run(e: EngineView, b: BusView) -> (EngineView, BusView)
    decreases phase_rank(e.phase),
{
    if e.phase is Done {
        (e, b)
    } else {
        let oc = spec_perform(b, spec_next_action(e)).1;
        spec_run(spec_step(e, oc), spec_perform(b, spec_next_action(e)).0)
    }
}

/// The in-memory bus.
pub struct SimulatedBus {
    log: Vec<HwAction>,
    signal: CompletionSignal,
    raise_on_start: bool,
    fail_at: Option<usize>,
}

impl View for SimulatedBus {
    type V = BusView;

    closed spec fn view(&self) -> BusView {
        BusView {
            log: self.log@.map_values(|a: HwAction| a@),
            raised: self.signal@,
            raise_on_start: self.raise_on_start,
            fail_at: self.fail_at,
        }
    }
}

impl SimulatedBus {
    /// A well-behaved bus: every action succeeds and every non-blocking
    /// start is completed by the (simulated) interrupt.
    pub fn new() -> (r: Self)
        ensures
            r@ == (BusView {
                log: Seq::empty(),
                raised: false,
                raise_on_start: true,
                fail_at: None,
            }),
    {
        let r = SimulatedBus {
            log: Vec::new(),
            signal: CompletionSignal::new(),
            raise_on_start: true,
            fail_at: None,
        };
        proof {
            assert(r@.log =~= Seq::<HwActionView>::empty());
        }
        r
    }

    /// A scripted bus: `raise_on_start` set to `false` withholds every
    /// completion signal, and `fail_at` makes the action at that log
    /// position fail.
    pub fn with_behavior(raise_on_start: bool, fail_at: Option<usize>) -> (r: Self)
        ensures
            r@ == (BusView { log: Seq::empty(), raised: false, raise_on_start, fail_at }),
    {
        let r = SimulatedBus { log: Vec::new(), signal: CompletionSignal::new(), raise_on_start, fail_at };
        proof {
            assert(r@.log =~= Seq::<HwActionView>::empty());
        }
        r
    }

    /// The actions performed so far, in order.
    pub fn log(&self) -> (r: &Vec<HwAction>)
        ensures
            r@.map_values(|a: HwAction| a@) == self@.log,
    {
        &self.log
    }

    /// Whether the completion signal is currently raised.  After a finished
    /// transfer this is `false`: each signal is consumed exactly once.
    pub fn completion_raised(&self) -> (b: bool)
        ensures
            b == self@.raised,
    {
        self.signal.is_raised()
    }

    /// Performs one hardware action.
    pub fn perform(&mut self, action: HwAction) -> (oc: HwOutcome)
        ensures
            final(self)@ == spec_perform(old(self)@, action@).0,
            oc == spec_perform(old(self)@, action@).1,
    {
        let fails = match self.fail_at {
            Some(i) => i == self.log.len(),
            None => false,
        };
        let is_start = matches!(action, HwAction::StartNonBlocking(_));
        let is_await = matches!(action, HwAction::AwaitCompletion);
        let ghost av = action@;
        self.log.push(action);
        proof {
            assert(self@.log =~= old(self)@.log.push(av));
        }
        if fails {
            proof {
                assert(self@ =~= spec_perform(old(self)@, av).0);
            }
            HwOutcome::Failed
        } else if is_start {
            if self.raise_on_start {
                self.signal.raise();
            }
            proof {
                assert(self@ =~= spec_perform(old(self)@, av).0);
            }
            HwOutcome::Completed
        } else if is_await {
            let was_raised = self.signal.try_consume();
            proof {
                assert(self@ =~= spec_perform(old(self)@, av).0);
            }
            if was_raised {
                HwOutcome::Completed
            } else {
                HwOutcome::TimedOut
            }
        } else {
            proof {
                assert(self@ =~= spec_perform(old(self)@, av).0);
            }
            HwOutcome::Completed
        }
    }
}

/// Runs one transfer to completion on the simulated bus: performs each action
/// the engine asks for and reports the outcome back, until the engine is
/// done.  The final engine and bus states are exactly [`spec_run`] of the
/// initial ones.
pub fn run_transfer(engine: &mut TransferEngine, bus: &mut SimulatedBus) -> (r: Result<
    (),
    SpiError,
>)
    requires
        engine_wf(old(engine)@),
    ensures
        engine_wf(final(engine)@),
        final(engine)@.phase is Done,
        (final(engine)@, final(bus)@) == spec_run(old(engine)@, old(bus)@),
        r == spec_result(final(engine)@),
{
    loop
        invariant
            engine_wf(engine@),
            spec_run(engine@, bus@) == spec_run(old(engine)@, old(bus)@),
        ensures
            engine_wf(engine@),
            engine@.phase is Done,
            spec_run(engine@, bus@) == spec_run(old(engine)@, old(bus)@),
        decreases phase_rank(engine@.phase),
    {
        if engine.is_done() {
            break ;
        }
        let a = engine.next_action();
        let oc = bus.perform(a);
        engine.advance(oc);
    }
    engine.result()
}

} // verus!
