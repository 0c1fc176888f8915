use web_demo::scheduler::step;
use web_demo::scheduler::Command;
use web_demo::scheduler::Phase;
use web_demo::scheduler::Signal;

#[test]
fn start_asks_for_the_first_frame() {
    assert_eq!(step(Phase::Idle, Signal::Start), (Phase::Scheduled, Command::RequestFrame));
}

#[test]
fn the_host_call_runs_the_frame() {
    assert_eq!(step(Phase::Scheduled, Signal::Refresh), (Phase::Running, Command::RunFrame));
}

#[test]
fn a_finished_frame_asks_for_the_next() {
    assert_eq!(step(Phase::Running, Signal::Done), (Phase::Scheduled, Command::RequestFrame));
}

#[test]
fn signals_that_do_not_fit_are_passed_over() {
    assert_eq!(step(Phase::Idle, Signal::Refresh), (Phase::Idle, Command::Nothing));
    assert_eq!(step(Phase::Idle, Signal::Done), (Phase::Idle, Command::Nothing));
    assert_eq!(step(Phase::Scheduled, Signal::Start), (Phase::Scheduled, Command::Nothing));
    assert_eq!(step(Phase::Scheduled, Signal::Done), (Phase::Scheduled, Command::Nothing));
    assert_eq!(step(Phase::Running, Signal::Start), (Phase::Running, Command::Nothing));
    assert_eq!(step(Phase::Running, Signal::Refresh), (Phase::Running, Command::Nothing));
}

#[test]
fn the_loop_goes_on_frame_after_frame() {
    let (mut phase, command) = step(Phase::Idle, Signal::Start);
    assert_eq!(command, Command::RequestFrame);
    for _ in 0..100 {
        let (running, run) = step(phase, Signal::Refresh);
        assert_eq!((running, run), (Phase::Running, Command::RunFrame));
        let (scheduled, request) = step(running, Signal::Done);
        assert_eq!((scheduled, request), (Phase::Scheduled, Command::RequestFrame));
        phase = scheduled;
    }
}

#[test]
fn one_frame_is_outstanding_exactly_while_scheduled() {
    let signals = [
        Signal::Refresh,
        Signal::Start,
        Signal::Start,
        Signal::Done,
        Signal::Refresh,
        Signal::Refresh,
        Signal::Start,
        Signal::Done,
        Signal::Done,
        Signal::Refresh,
    ];
    let mut phase = Phase::Idle;
    let mut requested = 0;
    let mut run = 0;
    for signal in signals {
        let (next, command) = step(phase, signal);
        match command {
            Command::RequestFrame => requested += 1,
            Command::RunFrame => run += 1,
            Command::Nothing => {}
        }
        phase = next;
        assert_ne!((signal, phase), (Signal::Start, Phase::Idle));
        assert_eq!(requested - run, if phase == Phase::Scheduled { 1 } else { 0 });
    }
    assert_eq!((requested, run), (2, 2));
    assert_eq!(phase, Phase::Running);
}
