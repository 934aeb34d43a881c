//! The cancellation handle of a vCPU.
//!
//! One 64-bit word packs whether the vCPU thread is inside a run step
//! (bit 63) and the generation of that run step (bits 0 to 62), so that
//! another thread reads both at once. The functions on plain words and
//! flags say exactly what each atomic step computes; `LinuxInterruptHandle`
//! applies them to atomics that other threads share, and `InterruptState`
//! is the same state as plain values, over which the laws of the protocol
//! are proved.

use crate::exit::{HyperlightExit, VcpuStopReason};
use std::sync::atomic::{AtomicBool, AtomicU64, Ordering};
use std::time::Duration;
use vstd::prelude::*;

verus! {

/// Bit 63 of the packed word: set while the vCPU thread is inside a run step.
pub const RUNNING_BIT: u64 = 0x8000_0000_0000_0000;

/// The largest generation: bits 0 to 62 all set.
pub const MAX_GENERATION: u64 = 0x7FFF_FFFF_FFFF_FFFF;

/// Whether the packed word says that a run step is in progress.
pub open spec fn word_running(raw: u64) -> bool {
    raw >= 0x8000_0000_0000_0000
}

/// The generation that the packed word carries.
pub open spec fn word_generation(raw: u64) -> u64 {
    (raw % 0x8000_0000_0000_0000) as u64
}

/// The word that packs the running flag and a generation.
pub open spec fn pack(running: bool, generation: u64) -> u64
    recommends
        generation <= MAX_GENERATION,
{
    if running {
        (generation + 0x8000_0000_0000_0000) as u64
    } else {
        generation
    }
}

/// The generation that follows `generation`: one more, and 0 after the
/// largest.
pub open spec fn next_generation(generation: u64) -> u64 {
    if generation >= MAX_GENERATION {
        0
    } else {
        (generation + 1) as u64
    }
}

/// The word with which a run step begins.
pub open spec fn run_word(raw: u64) -> u64 {
    pack(true, next_generation(word_generation(raw)))
}

/// The word with which a run step ends.
pub open spec fn idle_word(raw: u64) -> u64 {
    pack(false, word_generation(raw))
}

/// Splits a packed word into the running flag and the generation.
pub fn running_and_generation(raw: u64) -> (parts: (bool, u64))
    ensures
        parts.0 == word_running(raw),
        parts.1 == word_generation(raw),
        parts.1 <= MAX_GENERATION,
        raw == pack(parts.0, parts.1),
{
    assert((raw & 0x8000_0000_0000_0000 != 0) <==> raw >= 0x8000_0000_0000_0000) by (bit_vector);
    assert(raw & !0x8000_0000_0000_0000u64 == raw % 0x8000_0000_0000_0000) by (bit_vector);
    let running = raw & RUNNING_BIT != 0;
    let generation = raw & !RUNNING_BIT;
    (running, generation)
}

/// The packed word with which a run step begins: the running bit set and the
/// generation of `raw` advanced by one, back to 0 after the largest.
pub fn next_run_word(raw: u64) -> (next: u64)
    ensures
        next == run_word(raw),
        word_running(next),
        word_generation(next) == next_generation(word_generation(raw)),
{
    assert(raw & !0x8000_0000_0000_0000u64 == raw % 0x8000_0000_0000_0000) by (bit_vector);
    let generation = raw & !RUNNING_BIT;
    if generation == MAX_GENERATION {
        return RUNNING_BIT;
    }
    let bumped = generation + 1;
    assert((bumped | 0x8000_0000_0000_0000) == bumped + 0x8000_0000_0000_0000) by (bit_vector)
        requires
            bumped <= 0x7FFF_FFFF_FFFF_FFFF,
    ;
    bumped | RUNNING_BIT
}

/// Masking the running bit away leaves the idle word: not running, with the
/// generation unchanged.
pub proof fn lemma_mask_is_idle_word(raw: u64)
    ensures
        raw & !RUNNING_BIT == idle_word(raw),
        !word_running(idle_word(raw)),
        word_generation(idle_word(raw)) == word_generation(raw),
{
    assert(raw & !0x8000_0000_0000_0000u64 == raw % 0x8000_0000_0000_0000) by (bit_vector);
}

/// Whether a run step may enter the guest: not while an interruption that
/// was asked for is still to be reported.
pub open spec fn enters_guest(cancel_requested: bool, debug_interrupt: bool) -> bool {
    !cancel_requested && !debug_interrupt
}

/// The exit that a run step reports, given the exit of the backend and the
/// interrupt flags seen after the running bit was cleared: a requested
/// cancellation comes first, then an interruption by the debugger, and with
/// neither the exit of the backend stands.
pub open spec fn reported(exit: HyperlightExit, cancel_requested: bool, debug_interrupt: bool)
    -> HyperlightExit {
    if cancel_requested {
        HyperlightExit::Cancelled()
    } else if debug_interrupt {
        HyperlightExit::Debug(VcpuStopReason::Interrupt)
    } else {
        exit
    }
}

/// Decides whether a run step that is about to start enters the guest.
pub fn may_enter_guest(cancel_requested: bool, debug_interrupt: bool) -> (enter: bool)
    ensures
        enter == enters_guest(cancel_requested, debug_interrupt),
{
    !cancel_requested && !debug_interrupt
}

/// Decides the exit that a run step reports. An exit of the backend that
/// comes with both flags false is handed on as it is: a signal that arrives
/// then is stale and changes nothing.
pub fn reported_exit(exit: HyperlightExit, cancel_requested: bool, debug_interrupt: bool) -> (out:
    HyperlightExit)
    ensures
        out == reported(exit, cancel_requested, debug_interrupt),
{
    if cancel_requested {
        HyperlightExit::Cancelled()
    } else if debug_interrupt {
        HyperlightExit::Debug(VcpuStopReason::Interrupt)
    } else {
        exit
    }
}

/// What one call of `kill` has seen so far while it signals the vCPU thread.
#[derive(Clone, Copy, Debug, PartialEq, Eq, Structural)]
pub struct SignalLoop {
    /// The generation of the run step that the signals are meant for, once
    /// one was seen.
    pub target_generation: Option<u64>,
    /// Whether a signal was sent.
    pub sent_signal: bool,
}

impl SignalLoop {
    /// The state before the first look at the packed word.
    pub open spec fn start() -> SignalLoop {
        SignalLoop { target_generation: None, sent_signal: false }
    }

    /// Whether a signal is sent after the packed word was seen with these
    /// parts: the vCPU is running, and in the run step that was seen first.
    pub open spec fn sends(self, running: bool, generation: u64) -> bool {
        running && (self.target_generation is None || self.target_generation == Some(generation))
    }

    /// The state after the packed word was seen with these parts.
    pub open spec fn step(self, running: bool, generation: u64) -> SignalLoop {
        if self.sends(running, generation) {
            SignalLoop { target_generation: Some(generation), sent_signal: true }
        } else {
            self
        }
    }

    /// The state after the words were seen one after the other, up to the
    /// first that stops the loop.
    pub open spec fn run(self, words: Seq<u64>) -> SignalLoop
        decreases words.len(),
    {
        if words.len() == 0 {
            self
        } else if self.sends(word_running(words[0]), word_generation(words[0])) {
            self.step(word_running(words[0]), word_generation(words[0])).run(words.drop_first())
        } else {
            self
        }
    }

    /// The state with which a call of `kill` starts.
    pub fn new() -> (state: SignalLoop)
        ensures
            state == SignalLoop::start(),
    {
        SignalLoop { target_generation: None, sent_signal: false }
    }

    /// Takes in one look at the packed word and says whether to signal the
    /// vCPU thread and look again (`true`) or to stop (`false`). The loop
    /// stops when the vCPU is not running, and when it runs in another
    /// generation than the one first seen: that run step is a new one, which
    /// the signal is not meant for.
    pub fn observe(&mut self, running: bool, generation: u64) -> (send: bool)
        ensures
            send == old(self).sends(running, generation),
            *final(self) == old(self).step(running, generation),
    {
        if !running {
            return false;
        }
        match self.target_generation {
            None => {
                self.target_generation = Some(generation);
            },
            Some(expected) => {
                if expected != generation {
                    return false;
                }
            },
        }
        self.sent_signal = true;
        true
    }

    /// What `kill` returns when the loop has stopped: whether a signal was
    /// sent.
    pub fn sent_signal(&self) -> (sent: bool)
        ensures
            sent == self.sent_signal,
    {
        self.sent_signal
    }
}

/// The number of the real-time signal that interrupts the vCPU thread: the
/// lowest real-time signal plus the offset, where that is a real-time signal.
pub open spec fn signal_for(sigrtmin: i32, sigrtmax: i32, offset: u8) -> Option<i32> {
    if sigrtmin + offset <= sigrtmax {
        Some((sigrtmin + offset) as i32)
    } else {
        None
    }
}

/// Picks the real-time signal at `offset` from `sigrtmin`, or none where that
/// lies past `sigrtmax`.
pub fn signal_number_for(sigrtmin: i32, sigrtmax: i32, offset: u8) -> (signal: Option<i32>)
    ensures
        signal == signal_for(sigrtmin, sigrtmax, offset),
{
    let room: i64 = sigrtmax as i64 - sigrtmin as i64;
    if offset as i64 <= room {
        Some(sigrtmin + offset as i32)
    } else {
        None
    }
}

/// Calls `libc::SIGRTMIN`: the lowest real-time signal number that this
/// process may use. Nothing is claimed of the number.
#[verifier::external_body]
fn lowest_realtime_signal() -> i32 {
    libc::SIGRTMIN()
}

/// Calls `libc::SIGRTMAX`: the highest real-time signal number that this
/// process may use. Nothing is claimed of the number.
#[verifier::external_body]
fn highest_realtime_signal() -> i32 {
    libc::SIGRTMAX()
}

/// Calls `AtomicU64::fetch_update` with relaxed orderings and a function that
/// puts `next_run_word` of the current word in its place. That function
/// always gives a new word, so the call returns the word it replaced inside
/// `Ok`.
#[verifier::external_body]
fn fetch_update_run_word(word: &AtomicU64) -> (previous: Result<u64, u64>)
    ensures
        previous is Ok,
{
    word.fetch_update(Ordering::Relaxed, Ordering::Relaxed, |raw| Some(next_run_word(raw)))
}

/// How a run step starts.
#[derive(Clone, Copy, Debug, PartialEq, Eq, Structural)]
pub struct RunEntry {
    /// The generation of the run step.
    pub generation: u64,
    /// Whether the guest is entered. Where it is not, an interruption is
    /// pending and the run step ends at once.
    pub enter_guest: bool,
}

/// A cancellation token that any thread may hold. It is separate from the
/// sandbox that made it and stays readable after that sandbox is gone.
#[derive(Debug)]
pub struct LinuxInterruptHandle {
    /// Bit 63: the vCPU thread is inside a run step. Bits 0 to 62: the
    /// generation of that run step.
    running: AtomicU64,
    /// The thread of the vCPU, meaningful while it runs.
    tid: AtomicU64,
    /// Set by a request to cancel, cleared by the vCPU thread when it
    /// reports the cancellation.
    cancel_requested: AtomicBool,
    /// Set by a request of the debugger, cleared by the vCPU thread when it
    /// reports the interruption.
    debug_interrupt: AtomicBool,
    /// Whether the sandbox is gone.
    dropped: AtomicBool,
    /// The pause between two signals to the vCPU thread.
    retry_delay: Duration,
    /// The offset from the lowest real-time signal of the signal that
    /// interrupts the vCPU thread.
    sig_rt_min_offset: u8,
}

impl LinuxInterruptHandle {
    /// A handle of a vCPU that has not run yet: generation 0, not running,
    /// nothing requested.
    pub fn new(retry_delay: Duration, sig_rt_min_offset: u8) -> (handle: LinuxInterruptHandle)
        ensures
            handle.spec_sig_rt_min_offset() == sig_rt_min_offset,
            handle.spec_retry_delay() == retry_delay,
    {
        LinuxInterruptHandle {
            running: AtomicU64::new(0),
            tid: AtomicU64::new(0),
            cancel_requested: AtomicBool::new(false),
            debug_interrupt: AtomicBool::new(false),
            dropped: AtomicBool::new(false),
            retry_delay,
            sig_rt_min_offset,
        }
    }

    /// The offset that the handle was made with.
    pub closed spec fn spec_sig_rt_min_offset(&self) -> u8 {
        self.sig_rt_min_offset
    }

    /// The pause that the handle was made with.
    pub closed spec fn spec_retry_delay(&self) -> Duration {
        self.retry_delay
    }

    /// Sets the running bit and advances the generation in one atomic step
    /// (`next_run_word` of the word that is there). Returns the word that was
    /// replaced, which depends on the other threads; it is always `Ok`.
    pub fn set_running_and_increment_generation(&self) -> (previous: Result<u64, u64>)
        ensures
            previous is Ok,
    {
        fetch_update_run_word(&self.running)
    }

    /// Clears the running bit in one atomic step and leaves the generation
    /// (see `lemma_mask_is_idle_word`). Returns the word that was there, of
    /// which nothing is known here: other threads share it.
    pub fn clear_running_bit(&self) -> (previous: u64) {
        self.running.fetch_and(!RUNNING_BIT, Ordering::Relaxed)
    }

    /// Reads the packed word once and splits it. The two parts belong to one
    /// moment; which moment depends on the other threads.
    pub fn get_running_and_generation(&self) -> (parts: (bool, u64))
        ensures
            parts.1 <= MAX_GENERATION,
            exists|raw: u64|
                parts.0 == #[trigger] word_running(raw) && parts.1 == word_generation(raw),
    {
        let raw = self.running.load(Ordering::Relaxed);
        let parts = running_and_generation(raw);
        assert(parts.0 == word_running(raw) && parts.1 == word_generation(raw));
        parts
    }

    /// Records a request to cancel. It stays until the vCPU thread reports
    /// it, so a request made while the vCPU is not running ends the next run
    /// step.
    pub fn request_cancel(&self) {
        self.cancel_requested.store(true, Ordering::Relaxed);
    }

    /// Records a request of the debugger to interrupt.
    pub fn request_debug_interrupt(&self) {
        self.debug_interrupt.store(true, Ordering::Relaxed);
    }

    /// Starts a run step on the thread `tid`: records the thread, sets the
    /// running bit and advances the generation, then looks at the interrupt
    /// flags. Where one is set the guest is not entered.
    pub fn begin_run(&self, tid: u64) -> (entry: RunEntry)
        ensures
            entry.generation <= MAX_GENERATION,
    {
        self.tid.store(tid, Ordering::Relaxed);
        let raw = match self.set_running_and_increment_generation() {
            Ok(raw) => raw,
            Err(raw) => raw,
        };
        let parts = running_and_generation(next_run_word(raw));
        let cancel_requested = self.cancel_requested.load(Ordering::Relaxed);
        let debug_interrupt = self.debug_interrupt.load(Ordering::Relaxed);
        RunEntry {
            generation: parts.1,
            enter_guest: may_enter_guest(cancel_requested, debug_interrupt),
        }
    }

    /// Ends a run step whose backend exit was `exit`: clears the running bit,
    /// then looks at the interrupt flags. A flag that is set is cleared and
    /// reported in place of `exit`; which flags are set depends on the other
    /// threads, so the result is one of three.
    pub fn end_run(&self, exit: HyperlightExit) -> (out: HyperlightExit)
        ensures
            out == exit || out == HyperlightExit::Cancelled() || out == HyperlightExit::Debug(
                VcpuStopReason::Interrupt,
            ),
    {
        self.clear_running_bit();
        let cancel_requested = self.cancel_requested.load(Ordering::Relaxed);
        let debug_interrupt = self.debug_interrupt.load(Ordering::Relaxed);
        if cancel_requested {
            self.cancel_requested.store(false, Ordering::Relaxed);
        } else if debug_interrupt {
            self.debug_interrupt.store(false, Ordering::Relaxed);
        }
        reported_exit(exit, cancel_requested, debug_interrupt)
    }

    /// The thread that was recorded last.
    pub fn tid(&self) -> (tid: u64) {
        self.tid.load(Ordering::Relaxed)
    }

    /// Whether the sandbox of this handle is gone.
    pub fn dropped(&self) -> (gone: bool) {
        self.dropped.load(Ordering::Relaxed)
    }

    /// Records that the sandbox of this handle is gone.
    pub fn set_dropped(&self) {
        self.dropped.store(true, Ordering::Relaxed);
    }

    /// The pause between two signals to the vCPU thread.
    pub fn retry_delay(&self) -> (delay: Duration)
        ensures
            delay == self.spec_retry_delay(),
    {
        self.retry_delay
    }

    /// The offset of the interrupting signal from the lowest real-time
    /// signal.
    pub fn sig_rt_min_offset(&self) -> (offset: u8)
        ensures
            offset == self.spec_sig_rt_min_offset(),
    {
        self.sig_rt_min_offset
    }

    /// The number of the signal that interrupts the vCPU thread, or none
    /// where the offset leads past the real-time signals of this process.
    pub fn signal_number(&self) -> (signal: Option<i32>)
        ensures
            exists|low: i32, high: i32|
                signal == #[trigger] signal_for(low, high, self.spec_sig_rt_min_offset()),
    {
        let low = lowest_realtime_signal();
        let high = highest_realtime_signal();
        let signal = signal_number_for(low, high, self.sig_rt_min_offset);
        assert(signal == signal_for(low, high, self.spec_sig_rt_min_offset()));
        signal
    }
}

/// What the holder of a cancellation token can do.
pub trait InterruptHandle: core::fmt::Debug + Send + Sync {
    /// Asks for the vCPU to be interrupted, and signals its thread until it
    /// has left the run step. Returns `true` where the vCPU was seen running
    /// and a signal was sent; `false` where it was not running, in which
    /// case the next run step ends at once.
    fn kill(&self) -> bool;

    /// As `kill`, on behalf of the debugger.
    fn kill_from_debugger(&self) -> bool;

    /// Whether the sandbox of this handle is gone.
    fn dropped(&self) -> bool;
}

} // verus!
