//! The frame scheduler: when to ask the host for the next frame and when to
//! run one.
//!
//! The scheduler decides and the caller acts. The caller reports what has
//! happened as a [`Signal`], and does what the [`Command`] that comes back
//! says. Once started the loop has no end: every frame that is run asks for
//! the one after it.

use vstd::prelude::*;

verus! {

/// Where the loop stands.
#[derive(Clone, Copy, Debug, PartialEq, Eq, Structural)]
pub enum Phase {
    /// Not started: no frame has been asked for.
    Idle,
    /// A frame has been asked for and the host has not yet called.
    Scheduled,
    /// A frame is being run.
    Running,
}

/// What the caller reports.
#[derive(Clone, Copy, Debug, PartialEq, Eq, Structural)]
pub enum Signal {
    /// The application has started.
    Start,
    /// The host calls: the display is about to refresh.
    Refresh,
    /// The frame that was run is painted and flushed.
    Done,
}

/// What the caller is to do.
#[derive(Clone, Copy, Debug, PartialEq, Eq, Structural)]
pub enum Command {
    /// Ask the host to call at the next refresh of the display.
    RequestFrame,
    /// Run a frame now, and report `Done` after it.
    RunFrame,
    /// Do nothing: the signal does not fit the phase and is passed over.
    Nothing,
}

/// The phase that a signal leads to, and the command that goes with it.
pub open spec fn next(phase: Phase, signal: Signal) -> (Phase, Command) {
    match (phase, signal) {
        (Phase::Idle, Signal::Start) => (Phase::Scheduled, Command::RequestFrame),
        (Phase::Scheduled, Signal::Refresh) => (Phase::Running, Command::RunFrame),
        (Phase::Running, Signal::Done) => (Phase::Scheduled, Command::RequestFrame),
        _ => (phase, Command::Nothing),
    }
}

/// The phase after a run of signals, from `Idle`.
pub open spec fn phase_after(signals: Seq<Signal>) -> Phase
    decreases signals.len(),
{
    if signals.len() == 0 {
        Phase::Idle
    } else {
        next(phase_after(signals.drop_last()), signals.last()).0
    }
}

/// How often `command` was given over a run of signals, from `Idle`.
pub open spec fn times_given(signals: Seq<Signal>, command: Command) -> nat
    decreases signals.len(),
{
    if signals.len() == 0 {
        0
    } else {
        let before = times_given(signals.drop_last(), command);
        if next(phase_after(signals.drop_last()), signals.last()).1 == command {
            before + 1
        } else {
            before
        }
    }
}

/// Takes one signal: returns the phase that it leads to and the command for
/// the caller.
pub fn step(phase: Phase, signal: Signal) -> (result: (Phase, Command))
    ensures
        result == next(phase, signal),
{
    match (phase, signal) {
        (Phase::Idle, Signal::Start) => (Phase::Scheduled, Command::RequestFrame),
        (Phase::Scheduled, Signal::Refresh) => (Phase::Running, Command::RunFrame),
        (Phase::Running, Signal::Done) => (Phase::Scheduled, Command::RequestFrame),
        _ => (phase, Command::Nothing),
    }
}

/// The loop has no last phase: from every phase some signal leads on to
/// another, and once started it is never idle again.
pub proof fn lemma_loop_never_ends(phase: Phase)
    ensures
        exists|signal: Signal| (#[trigger] next(phase, signal)).0 != phase,
        forall|signal: Signal| phase != Phase::Idle ==> (#[trigger] next(phase, signal)).0 != Phase::Idle,
{
    match phase {
        Phase::Idle => {
            assert(next(phase, Signal::Start).0 != phase);
        },
        Phase::Scheduled => {
            assert(next(phase, Signal::Refresh).0 != phase);
        },
        Phase::Running => {
            assert(next(phase, Signal::Done).0 != phase);
        },
    }
}

/// Whatever signals come, in whatever order: while the loop is `Scheduled`,
/// exactly one frame has been asked for and not yet run, and in any other
/// phase none has. No frame is run that was not asked for.
pub proof fn lemma_one_frame_at_a_time(signals: Seq<Signal>)
    ensures
        times_given(signals, Command::RequestFrame) - times_given(signals, Command::RunFrame) == (
        if phase_after(signals) == Phase::Scheduled {
            1int
        } else {
            0int
        }),
        times_given(signals, Command::RunFrame) <= times_given(signals, Command::RequestFrame),
    decreases signals.len(),
{
    if signals.len() > 0 {
        lemma_one_frame_at_a_time(signals.drop_last());
    }
}

} // verus!
