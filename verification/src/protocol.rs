//! The cancellation protocol as a state machine over plain values, and its
//! laws.
//!
//! `InterruptState` holds what the atomics of a `LinuxInterruptHandle` hold,
//! and a `Step` is one atomic step of a thread on them, written with the
//! functions that the executable steps are specified by. The threads that
//! hold the handle only ask (`Kill`, `KillFromDebugger`); everything else is
//! done by the thread of the vCPU. The laws speak of sequences of such steps,
//! so they hold however the threads take turns.

use crate::exit::HyperlightExit;
use crate::interrupt::{
    enters_guest, idle_word, next_generation, reported, run_word, word_generation, word_running,
    SignalLoop, MAX_GENERATION, RUNNING_BIT,
};
use crate::vcpu::{RunStep, VirtualCPU};
use vstd::prelude::*;

verus! {

/// What the threads share: the packed word, the thread of the vCPU and the
/// two interrupt flags.
pub struct InterruptState {
    /// Bit 63: a run step is in progress. Bits 0 to 62: its generation.
    pub word: u64,
    /// The thread that started the last run step.
    pub tid: u64,
    /// A cancellation was asked for and is not reported yet.
    pub cancel_requested: bool,
    /// The debugger asked for an interruption that is not reported yet.
    pub debug_interrupt: bool,
}

/// One atomic step of a thread on the shared state.
pub enum Step {
    /// A holder of the handle asks for a cancellation.
    Kill,
    /// The debugger asks for an interruption.
    KillFromDebugger,
    /// The thread with this identifier starts a run step.
    BeginRun(u64),
    /// The vCPU thread clears the running bit.
    LeaveRun,
    /// The vCPU thread clears the flag that it reports.
    Acknowledge,
}

/// Whether all the steps are requests of holders of the handle: none is a
/// step of the vCPU thread.
pub open spec fn requests_only(steps: Seq<Step>) -> bool {
    forall|i: int| 0 <= i < steps.len() ==> steps[i] is Kill || steps[i] is KillFromDebugger
}

impl InterruptState {
    /// Another thread asks for a cancellation.
    pub open spec fn kill(self) -> InterruptState {
        InterruptState { cancel_requested: true, ..self }
    }

    /// The debugger asks for an interruption.
    pub open spec fn kill_from_debugger(self) -> InterruptState {
        InterruptState { debug_interrupt: true, ..self }
    }

    /// The thread `tid` starts a run step: it records itself, then sets the
    /// running bit and advances the generation.
    pub open spec fn begin_run(self, tid: u64) -> InterruptState {
        InterruptState { word: run_word(self.word), tid, ..self }
    }

    /// Whether the run step that has started enters the guest.
    pub open spec fn enters_guest(self) -> bool {
        enters_guest(self.cancel_requested, self.debug_interrupt)
    }

    /// The vCPU thread clears the running bit.
    pub open spec fn leave_run(self) -> InterruptState {
        InterruptState { word: idle_word(self.word), ..self }
    }

    /// The vCPU thread, after it has cleared the running bit, clears the flag
    /// that it reports.
    pub open spec fn acknowledge(self) -> InterruptState {
        if self.cancel_requested {
            InterruptState { cancel_requested: false, ..self }
        } else if self.debug_interrupt {
            InterruptState { debug_interrupt: false, ..self }
        } else {
            self
        }
    }

    /// The exit that the vCPU thread reports for the backend exit `exit`.
    pub open spec fn report(self, exit: HyperlightExit) -> HyperlightExit {
        reported(exit, self.cancel_requested, self.debug_interrupt)
    }

    /// The state after the vCPU thread has ended a run step.
    pub open spec fn end_run(self) -> InterruptState {
        self.leave_run().acknowledge()
    }

    /// The state after one step.
    pub open spec fn apply(self, step: Step) -> InterruptState {
        match step {
            Step::Kill => self.kill(),
            Step::KillFromDebugger => self.kill_from_debugger(),
            Step::BeginRun(tid) => self.begin_run(tid),
            Step::LeaveRun => self.leave_run(),
            Step::Acknowledge => self.acknowledge(),
        }
    }

    /// The state after the steps, taken in order.
    pub open spec fn after(self, steps: Seq<Step>) -> InterruptState
        decreases steps.len(),
    {
        if steps.len() == 0 {
            self
        } else {
            self.apply(steps[0]).after(steps.drop_first())
        }
    }

    /// What a call of `kill` returns that looks at the packed word in the
    /// states `seen`, one after the other: whether it sent a signal.
    pub open spec fn kill_returns(seen: Seq<InterruptState>) -> bool {
        SignalLoop::start().run(seen.map_values(|s: InterruptState| s.word)).sent_signal
    }
}

/// A request stays until the vCPU thread acknowledges it: no other step
/// clears the flag.
pub proof fn law_request_stays_until_acknowledged(state: InterruptState, steps: Seq<Step>)
    requires
        forall|i: int| 0 <= i < steps.len() ==> !(steps[i] is Acknowledge),
    ensures
        state.cancel_requested ==> state.after(steps).cancel_requested,
        state.debug_interrupt ==> state.after(steps).debug_interrupt,
    decreases steps.len(),
{
    if steps.len() > 0 {
        let rest = steps.drop_first();
        assert forall|i: int| 0 <= i < rest.len() implies !(rest[i] is Acknowledge) by {
            assert(rest[i] == steps[i + 1]);
        }
        law_request_stays_until_acknowledged(state.apply(steps[0]), rest);
    }
}

/// Requests leave the run step alone: they change neither the packed word
/// nor the recorded thread, and they take no request back.
pub proof fn law_requests_leave_run_alone(state: InterruptState, steps: Seq<Step>)
    requires
        requests_only(steps),
    ensures
        state.after(steps).word == state.word,
        state.after(steps).tid == state.tid,
        state.cancel_requested ==> state.after(steps).cancel_requested,
        state.debug_interrupt ==> state.after(steps).debug_interrupt,
    decreases steps.len(),
{
    if steps.len() > 0 {
        let rest = steps.drop_first();
        assert forall|i: int| 0 <= i < rest.len() implies rest[i] is Kill
            || rest[i] is KillFromDebugger by {
            assert(rest[i] == steps[i + 1]);
        }
        law_requests_leave_run_alone(state.apply(steps[0]), rest);
    }
}

/// Once a signal was sent, the loop says so whatever it sees afterwards.
pub proof fn lemma_sent_signal_stays(state: SignalLoop, words: Seq<u64>)
    requires
        state.sent_signal,
    ensures
        state.run(words).sent_signal,
    decreases words.len(),
{
    if words.len() > 0 && state.sends(word_running(words[0]), word_generation(words[0])) {
        lemma_sent_signal_stays(
            state.step(word_running(words[0]), word_generation(words[0])),
            words.drop_first(),
        );
    }
}

/// `kill` returns `true` exactly when its first look at the packed word found
/// the vCPU running.
pub proof fn law_kill_returns_whether_running(seen: Seq<InterruptState>)
    ensures
        InterruptState::kill_returns(seen) <==> (seen.len() > 0 && word_running(seen[0].word)),
{
    let words = seen.map_values(|s: InterruptState| s.word);
    let start = SignalLoop::start();
    if seen.len() > 0 {
        assert(words[0] == seen[0].word);
        if word_running(words[0]) {
            lemma_sent_signal_stays(
                start.step(word_running(words[0]), word_generation(words[0])),
                words.drop_first(),
            );
        }
    }
}

/// A `kill` whose first look at the packed word finds the generation of a run
/// step, while its request is pending, has one of two outcomes. Either the
/// step is still in progress: then `kill` sends a signal and returns `true`,
/// and the step reports `Cancelled` when it ends, whatever the backend hands
/// back and whatever is asked for in the meantime. Or the step has ended:
/// then `kill` sends nothing and returns `false`.
pub proof fn law_kill_of_run_step(
    before: InterruptState,
    tid: u64,
    first_look: InterruptState,
    meanwhile: Seq<Step>,
    later_looks: Seq<InterruptState>,
    exit: HyperlightExit,
)
    requires
        word_generation(first_look.word) == word_generation(before.begin_run(tid).word),
        first_look.cancel_requested,
        requests_only(meanwhile),
    ensures
        first_look.word == before.begin_run(tid).word || first_look.word == before.begin_run(
            tid,
        ).leave_run().word,
        first_look.word == before.begin_run(tid).word ==> {
            &&& InterruptState::kill_returns(seq![first_look] + later_looks)
            &&& first_look.after(meanwhile).leave_run().report(exit) == HyperlightExit::Cancelled()
            &&& !first_look.after(meanwhile).end_run().cancel_requested
        },
        first_look.word == before.begin_run(tid).leave_run().word ==> !InterruptState::kill_returns(
            seq![first_look] + later_looks,
        ),
{
    law_kill_returns_whether_running(seq![first_look] + later_looks);
    assert((seq![first_look] + later_looks)[0] == first_look);
    law_requests_leave_run_alone(first_look, meanwhile);
}

/// A `kill` keeps to the run step that it saw first: once it has signalled a
/// step of one generation, a running step of another generation stops it and
/// gets no signal.
pub proof fn law_next_run_gets_no_signal(state: SignalLoop, target: u64, word: u64)
    requires
        state.target_generation == Some(target),
        word_generation(word) != target,
    ensures
        !state.sends(word_running(word), word_generation(word)),
        state.run(seq![word]) == state,
{
}

/// A `kill` made while the vCPU is not running sends no signal and returns
/// `false`. The next run step does not enter the guest and reports
/// `Cancelled`, whatever the backend hands back and whatever is asked for
/// before and during that step. The request is used up by that: the flag is
/// clear again when the step has ended.
pub proof fn law_kill_between_runs(
    idle: InterruptState,
    tid: u64,
    before_run: Seq<Step>,
    during_run: Seq<Step>,
    later_looks: Seq<InterruptState>,
    exit: HyperlightExit,
)
    requires
        !word_running(idle.word),
        requests_only(before_run),
        requests_only(during_run),
    ensures
        !InterruptState::kill_returns(seq![idle.kill()] + later_looks),
        !idle.kill().after(before_run).begin_run(tid).enters_guest(),
        idle.kill().after(before_run).begin_run(tid).after(during_run).leave_run().report(exit)
            == HyperlightExit::Cancelled(),
        !idle.kill().after(before_run).begin_run(tid).after(during_run).end_run().cancel_requested,
        word_generation(
            idle.kill().after(before_run).begin_run(tid).after(during_run).end_run().word,
        ) == next_generation(word_generation(idle.word)),
{
    law_kill_returns_whether_running(seq![idle.kill()] + later_looks);
    assert((seq![idle.kill()] + later_looks)[0] == idle.kill());
    law_requests_leave_run_alone(idle.kill(), before_run);
    law_requests_leave_run_alone(idle.kill().after(before_run).begin_run(tid), during_run);
}

/// While a run step is in progress the running bit is set and the recorded
/// thread is the one that started the step, whatever is asked for in the
/// meantime; the end of the step clears the bit.
pub proof fn law_running_thread_is_recorded(state: InterruptState, tid: u64, meanwhile: Seq<Step>)
    requires
        requests_only(meanwhile),
    ensures
        word_running(state.begin_run(tid).after(meanwhile).word),
        state.begin_run(tid).after(meanwhile).tid == tid,
        !word_running(state.begin_run(tid).after(meanwhile).end_run().word),
{
    law_requests_leave_run_alone(state.begin_run(tid), meanwhile);
}

/// Each run step has the generation that follows that of the step before it:
/// one more, modulo 2^63. Nothing but the start of a run step changes the
/// generation.
pub proof fn law_generation_advances(
    state: InterruptState,
    tid: u64,
    during_run: Seq<Step>,
    between_runs: Seq<Step>,
)
    requires
        requests_only(during_run),
        requests_only(between_runs),
    ensures
        word_generation(state.begin_run(tid).word) as int == (word_generation(state.word) + 1)
            % 0x8000_0000_0000_0000,
        word_generation(state.begin_run(tid).after(during_run).end_run().word) == word_generation(
            state.begin_run(tid).word,
        ),
        word_generation(
            state.begin_run(tid).after(during_run).end_run().after(between_runs).begin_run(
                tid,
            ).word,
        ) as int == (word_generation(state.begin_run(tid).word) + 1) % 0x8000_0000_0000_0000,
{
    law_requests_leave_run_alone(state.begin_run(tid), during_run);
    law_requests_leave_run_alone(state.begin_run(tid).after(during_run).end_run(), between_runs);
}

/// After the largest generation comes generation 0, with the running bit set.
pub proof fn law_generation_wraps(state: InterruptState, tid: u64)
    requires
        word_generation(state.word) == MAX_GENERATION,
    ensures
        state.begin_run(tid).word == RUNNING_BIT,
        word_running(state.begin_run(tid).word),
        word_generation(state.begin_run(tid).word) == 0,
{
}

/// A signal that arrives while neither interrupt flag is set is stale. The
/// run step reports the exit of the backend as it is; where that is the
/// `Retry` of an interrupted call, the run loop runs the vCPU again. Ending
/// the step changes nothing but the running bit.
pub proof fn law_stale_signal_changes_nothing(state: InterruptState, exit: HyperlightExit)
    requires
        !state.cancel_requested,
        !state.debug_interrupt,
    ensures
        state.enters_guest(),
        state.leave_run().report(exit) == exit,
        VirtualCPU::next_step(Ok(state.leave_run().report(HyperlightExit::Retry())))
            == RunStep::Continue,
        state.end_run() == (InterruptState { word: idle_word(state.word), ..state }),
        word_generation(state.end_run().word) == word_generation(state.word),
{
}

/// However often `kill` is called in a row, the request is recorded once.
pub proof fn lemma_kills_are_one_kill(state: InterruptState, kills: Seq<Step>)
    requires
        kills.len() >= 1,
        forall|i: int| 0 <= i < kills.len() ==> kills[i] is Kill,
    ensures
        state.after(kills) == state.kill(),
    decreases kills.len(),
{
    let rest = kills.drop_first();
    if rest.len() > 0 {
        assert forall|i: int| 0 <= i < rest.len() implies rest[i] is Kill by {
            assert(rest[i] == kills[i + 1]);
        }
        lemma_kills_are_one_kill(state.kill(), rest);
    } else {
        assert(state.kill().after(rest) == state.kill());
    }
}

/// Any number of calls of `kill` while the vCPU is not running cancel one
/// run step: the next step reports `Cancelled`, and the step after it reports
/// what it would have reported without those calls.
pub proof fn law_repeated_kill(
    idle: InterruptState,
    tid: u64,
    kills: Seq<Step>,
    first_exit: HyperlightExit,
    second_exit: HyperlightExit,
)
    requires
        kills.len() >= 1,
        forall|i: int| 0 <= i < kills.len() ==> kills[i] is Kill,
        !word_running(idle.word),
    ensures
        idle.after(kills) == idle.kill(),
        idle.after(kills).begin_run(tid).leave_run().report(first_exit)
            == HyperlightExit::Cancelled(),
        !idle.after(kills).begin_run(tid).end_run().cancel_requested,
        idle.after(kills).begin_run(tid).end_run().begin_run(tid).leave_run().report(second_exit)
            == reported(second_exit, false, idle.debug_interrupt),
{
    lemma_kills_are_one_kill(idle, kills);
}

} // verus!
