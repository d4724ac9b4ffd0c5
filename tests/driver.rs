use cashcode::driver::{
    driver_step, DriverAction, DriverInput, DriverPhase, BACKOFF_MS, POLL_INTERVAL_MS,
    REENABLE_DELAY_MS, RESET_SETTLE_MS, SHORT_SETTLE_MS,
};
use cashcode::event::BillEvent;
use cashcode::nominal::BillNominal;
use cashcode::protocol::{CashCodeCommand, Command};

fn run(mut phase: DriverPhase, inputs: Vec<DriverInput>) -> (DriverPhase, Vec<DriverAction>) {
    let mut actions = Vec::new();
    for i in inputs {
        let (next, a) = driver_step(phase, i);
        phase = next;
        actions.push(a);
    }
    (phase, actions)
}

#[test]
fn startup_resets_then_drains_two_polls() {
    let (phase, actions) = run(
        DriverPhase::Start,
        vec![
            DriverInput::Done,
            DriverInput::Done,
            DriverInput::Polled(None),
            DriverInput::Polled(Some(BillEvent::StackerRemoved)),
        ],
    );
    assert_eq!(
        actions,
        vec![
            DriverAction::Send(Command::Reset, 5000),
            DriverAction::Poll { forward: false, settle_ms: 200 },
            DriverAction::Poll { forward: false, settle_ms: 200 },
            DriverAction::TakeCommand,
        ]
    );
    assert_eq!(phase, DriverPhase::Commands);
}

#[test]
fn cycle_drains_commands_polls_forwards_and_pauses() {
    let event = BillEvent::Accepted(BillNominal::Dram1000);
    let (phase, actions) = run(
        DriverPhase::Commands,
        vec![
            DriverInput::NextCommand(Some(CashCodeCommand::Enable)),
            DriverInput::Done,
            DriverInput::NextCommand(Some(CashCodeCommand::Disable)),
            DriverInput::Done,
            DriverInput::NextCommand(None),
            DriverInput::Polled(Some(event.clone())),
            DriverInput::Done,
            DriverInput::Done,
            DriverInput::NextCommand(None),
            DriverInput::Polled(None),
            DriverInput::Done,
        ],
    );
    assert_eq!(
        actions,
        vec![
            DriverAction::Send(Command::Enable, 0),
            DriverAction::TakeCommand,
            DriverAction::Send(Command::Disable, 0),
            DriverAction::TakeCommand,
            DriverAction::Poll { forward: true, settle_ms: 0 },
            DriverAction::Forward(event),
            DriverAction::Sleep(400),
            DriverAction::TakeCommand,
            DriverAction::Poll { forward: true, settle_ms: 0 },
            DriverAction::Sleep(400),
            DriverAction::TakeCommand,
        ]
    );
    assert_eq!(phase, DriverPhase::Commands);
}

#[test]
fn startup_events_are_not_forwarded() {
    let (_, actions) = run(
        DriverPhase::ResetSent,
        vec![
            DriverInput::Done,
            DriverInput::Polled(Some(BillEvent::StackerRemoved)),
            DriverInput::Polled(Some(BillEvent::StackerReplaced)),
        ],
    );
    assert!(actions.iter().all(|a| !matches!(a, DriverAction::Forward(_))));
}

#[test]
fn no_enable_without_request() {
    let (_, actions) = run(
        DriverPhase::Start,
        vec![
            DriverInput::Done,
            DriverInput::Done,
            DriverInput::Polled(None),
            DriverInput::Polled(None),
            DriverInput::NextCommand(Some(CashCodeCommand::Disable)),
            DriverInput::Done,
            DriverInput::NextCommand(None),
            DriverInput::IoFailed,
            DriverInput::Done,
            DriverInput::NextCommand(None),
        ],
    );
    assert!(actions
        .iter()
        .all(|a| !matches!(a, DriverAction::Send(Command::Enable, _))));
}

#[test]
fn io_failure_backs_off_and_goes_on() {
    let phases = [
        DriverPhase::Start,
        DriverPhase::ResetSent,
        DriverPhase::FirstDrainPoll,
        DriverPhase::SecondDrainPoll,
        DriverPhase::Commands,
        DriverPhase::Polling,
        DriverPhase::Forwarding,
        DriverPhase::Resting,
    ];
    for p in phases {
        let (next, a) = driver_step(p, DriverInput::IoFailed);
        assert_eq!(a, DriverAction::Sleep(1000));
        assert_ne!(next, DriverPhase::Stopped);
    }
    // a failed poll of a cycle is followed by the next cycle
    let (_, actions) = run(
        DriverPhase::Polling,
        vec![DriverInput::IoFailed, DriverInput::Done],
    );
    assert_eq!(
        actions,
        vec![DriverAction::Sleep(1000), DriverAction::TakeCommand]
    );
    // a failed Reset is followed by the startup polls
    let (_, actions) = run(
        DriverPhase::ResetSent,
        vec![DriverInput::IoFailed, DriverInput::Done],
    );
    assert_eq!(
        actions,
        vec![
            DriverAction::Sleep(1000),
            DriverAction::Poll { forward: false, settle_ms: 200 }
        ]
    );
}

#[test]
fn consumer_gone_stops_for_good() {
    let (p, a) = driver_step(DriverPhase::Forwarding, DriverInput::ConsumerGone);
    assert_eq!((p, a), (DriverPhase::Stopped, DriverAction::Stop));
    let (p, a) = driver_step(DriverPhase::Stopped, DriverInput::Done);
    assert_eq!((p, a), (DriverPhase::Stopped, DriverAction::Stop));
    let (p, a) = driver_step(DriverPhase::Stopped, DriverInput::IoFailed);
    assert_eq!((p, a), (DriverPhase::Stopped, DriverAction::Stop));
}

#[test]
fn delays_are_ordered() {
    assert!(BACKOFF_MS > POLL_INTERVAL_MS);
    assert!(RESET_SETTLE_MS > SHORT_SETTLE_MS);
    assert_eq!(REENABLE_DELAY_MS, 500);
}
