use vstd::prelude::*;
use crate::event::BillEvent;
use crate::protocol::{CashCodeCommand, Command};

verus! {

/// Settle time after Reset before the device is polled, in milliseconds.
pub const RESET_SETTLE_MS: u64 = 5000;
/// Settle time after each of the two startup polls, in milliseconds.
pub const SHORT_SETTLE_MS: u64 = 200;
/// Pause between two poll cycles, in milliseconds.
pub const POLL_INTERVAL_MS: u64 = 400;
/// Pause after a transport I/O error, in milliseconds.
pub const BACKOFF_MS: u64 = 1000;
/// Delay between a stacker-replaced transition and the Enable it calls for,
/// in milliseconds.
pub const REENABLE_DELAY_MS: u64 = 500;

/// Where the driver loop stands: the step it asked for last.
#[derive(Debug, Clone, Copy, PartialEq, Eq, Structural)]
pub enum DriverPhase {
    /// Nothing asked for yet.
    Start,
    /// Reset asked for.
    ResetSent,
    /// The startup poll that drains INITIALIZING asked for.
    FirstDrainPoll,
    /// The startup poll that drains the first DISABLED asked for.
    SecondDrainPoll,
    /// Draining the command queue.
    Commands,
    /// The poll of a cycle asked for.
    Polling,
    /// An event handed to the consumer.
    Forwarding,
    /// Pausing before the next cycle.
    Resting,
    /// The consumer is gone; the loop is over.
    Stopped,
}

/// What happened to the step that the driver asked for.
#[derive(Debug, Clone, PartialEq, Eq)]
pub enum DriverInput {
    /// The step is done (a command sent, an event forwarded, a pause over).
    Done,
    /// The next queued command, or `None` where the queue is empty.
    NextCommand(Option<CashCodeCommand>),
    /// A poll was made; the event it gave, if any.
    Polled(Option<BillEvent>),
    /// The transport failed during the step.
    IoFailed,
    /// The consumer of events is gone.
    ConsumerGone,
}

/// A step that the driver asks the loop to carry out.
#[derive(Debug, Clone, PartialEq, Eq)]
pub enum DriverAction {
    /// Send a command, read its reply, then pause this many milliseconds.
    Send(Command, u64),
    /// Poll the device and handle its response, then pause `settle_ms`;
    /// `forward` says whether an event of this poll goes to the consumer.
    Poll { forward: bool, settle_ms: u64 },
    /// Take the next command from the queue without waiting.
    TakeCommand,
    /// Hand an event to the consumer.
    Forward(BillEvent),
    /// Pause this many milliseconds.
    Sleep(u64),
    /// End the loop.
    Stop,
}

/// The device command of a controller request.
pub open spec fn command_of(c: CashCodeCommand) -> Command {
    match c {
        CashCodeCommand::Enable => Command::Enable,
        CashCodeCommand::Disable => Command::Disable,
    }
}

/// The next phase and action of the driver loop, given its phase and what
/// happened to the step it asked for.
///
/// Startup is Reset with its long settle, two polls whose events are
/// dropped, each with a short settle, then the first cycle. A cycle drains
/// the command queue, sending each command, then polls, forwards the event if
/// there is one, and pauses. An I/O error is followed by the backoff pause and
/// the loop goes on; only the loss of the consumer ends it.
pub open spec fn driver_step_spec(p: DriverPhase, i: DriverInput) -> (DriverPhase, DriverAction) {
    match (p, i) {
        (DriverPhase::Stopped, _) => (DriverPhase::Stopped, DriverAction::Stop),
        (_, DriverInput::ConsumerGone) => (DriverPhase::Stopped, DriverAction::Stop),
        (DriverPhase::Start, DriverInput::IoFailed) => (
            DriverPhase::Start,
            DriverAction::Sleep(BACKOFF_MS),
        ),
        (DriverPhase::ResetSent, DriverInput::IoFailed) => (
            DriverPhase::ResetSent,
            DriverAction::Sleep(BACKOFF_MS),
        ),
        (DriverPhase::FirstDrainPoll, DriverInput::IoFailed) => (
            DriverPhase::FirstDrainPoll,
            DriverAction::Sleep(BACKOFF_MS),
        ),
        (DriverPhase::SecondDrainPoll, DriverInput::IoFailed) => (
            DriverPhase::SecondDrainPoll,
            DriverAction::Sleep(BACKOFF_MS),
        ),
        (_, DriverInput::IoFailed) => (DriverPhase::Resting, DriverAction::Sleep(BACKOFF_MS)),
        (DriverPhase::Start, _) => (
            DriverPhase::ResetSent,
            DriverAction::Send(Command::Reset, RESET_SETTLE_MS),
        ),
        (DriverPhase::ResetSent, _) => (
            DriverPhase::FirstDrainPoll,
            DriverAction::Poll { forward: false, settle_ms: SHORT_SETTLE_MS },
        ),
        (DriverPhase::FirstDrainPoll, _) => (
            DriverPhase::SecondDrainPoll,
            DriverAction::Poll { forward: false, settle_ms: SHORT_SETTLE_MS },
        ),
        (DriverPhase::SecondDrainPoll, _) => (DriverPhase::Commands, DriverAction::TakeCommand),
        (DriverPhase::Commands, DriverInput::NextCommand(Some(c))) => (
            DriverPhase::Commands,
            DriverAction::Send(command_of(c), 0),
        ),
        (DriverPhase::Commands, DriverInput::NextCommand(None)) => (
            DriverPhase::Polling,
            DriverAction::Poll { forward: true, settle_ms: 0 },
        ),
        (DriverPhase::Commands, _) => (DriverPhase::Commands, DriverAction::TakeCommand),
        (DriverPhase::Polling, DriverInput::Polled(Some(e))) => (
            DriverPhase::Forwarding,
            DriverAction::Forward(e),
        ),
        (DriverPhase::Polling, _) => (DriverPhase::Resting, DriverAction::Sleep(POLL_INTERVAL_MS)),
        (DriverPhase::Forwarding, _) => (
            DriverPhase::Resting,
            DriverAction::Sleep(POLL_INTERVAL_MS),
        ),
        (DriverPhase::Resting, _) => (DriverPhase::Commands, DriverAction::TakeCommand),
    }
}

/// Decides the next step of the driver loop.
pub fn driver_step(p: DriverPhase, i: DriverInput) -> (r: (DriverPhase, DriverAction))
    ensures
        r == driver_step_spec(p, i),
{
    if p == DriverPhase::Stopped {
        return (DriverPhase::Stopped, DriverAction::Stop);
    }
    match i {
        DriverInput::ConsumerGone => (DriverPhase::Stopped, DriverAction::Stop),
        DriverInput::IoFailed => {
            let next = match p {
                DriverPhase::Start | DriverPhase::ResetSent | DriverPhase::FirstDrainPoll
                | DriverPhase::SecondDrainPoll => p,
                _ => DriverPhase::Resting,
            };
            (next, DriverAction::Sleep(BACKOFF_MS))
        },
        i => match p {
            DriverPhase::Start => (
                DriverPhase::ResetSent,
                DriverAction::Send(Command::Reset, RESET_SETTLE_MS),
            ),
            DriverPhase::ResetSent => (
                DriverPhase::FirstDrainPoll,
                DriverAction::Poll { forward: false, settle_ms: SHORT_SETTLE_MS },
            ),
            DriverPhase::FirstDrainPoll => (
                DriverPhase::SecondDrainPoll,
                DriverAction::Poll { forward: false, settle_ms: SHORT_SETTLE_MS },
            ),
            DriverPhase::SecondDrainPoll => (DriverPhase::Commands, DriverAction::TakeCommand),
            DriverPhase::Commands => match i {
                DriverInput::NextCommand(Some(c)) => (
                    DriverPhase::Commands,
                    DriverAction::Send(c.command(), 0),
                ),
                DriverInput::NextCommand(None) => (
                    DriverPhase::Polling,
                    DriverAction::Poll { forward: true, settle_ms: 0 },
                ),
                _ => (DriverPhase::Commands, DriverAction::TakeCommand),
            },
            DriverPhase::Polling => match i {
                DriverInput::Polled(Some(e)) => (DriverPhase::Forwarding, DriverAction::Forward(e)),
                _ => (DriverPhase::Resting, DriverAction::Sleep(POLL_INTERVAL_MS)),
            },
            DriverPhase::Forwarding => (DriverPhase::Resting, DriverAction::Sleep(POLL_INTERVAL_MS)),
            _ => (DriverPhase::Commands, DriverAction::TakeCommand),
        },
    }
}

/// The actions of a run of inputs, starting in a phase.
pub open spec fn run_actions(p: DriverPhase, ins: Seq<DriverInput>) -> Seq<DriverAction>
    decreases ins.len(),
{
    if ins.len() == 0 {
        seq![]
    } else {
        let (q, a) = driver_step_spec(p, ins[0]);
        seq![a] + run_actions(q, ins.drop_first())
    }
}

/// Startup, whatever the two drained polls gave, is exactly Reset with the
/// long settle, two polls whose events are dropped, each with the short
/// settle, and then the first request for a command.
pub proof fn lemma_startup_sequence(first: Option<BillEvent>, second: Option<BillEvent>)
    ensures
        run_actions(
            DriverPhase::Start,
            seq![
                DriverInput::Done,
                DriverInput::Done,
                DriverInput::Polled(first),
                DriverInput::Polled(second),
            ],
        ) == seq![
            DriverAction::Send(Command::Reset, RESET_SETTLE_MS),
            DriverAction::Poll { forward: false, settle_ms: SHORT_SETTLE_MS },
            DriverAction::Poll { forward: false, settle_ms: SHORT_SETTLE_MS },
            DriverAction::TakeCommand,
        ],
{
    let ins = seq![
        DriverInput::Done,
        DriverInput::Done,
        DriverInput::Polled(first),
        DriverInput::Polled(second),
    ];
    let i1 = ins.drop_first();
    let i2 = i1.drop_first();
    let i3 = i2.drop_first();
    let i4 = i3.drop_first();
    assert(i1[0] == DriverInput::Done);
    assert(i2[0] == DriverInput::Polled(first));
    assert(i3[0] == DriverInput::Polled(second));
    assert(i4.len() == 0);
    let r4 = run_actions(DriverPhase::Commands, i4);
    let r3 = run_actions(DriverPhase::SecondDrainPoll, i3);
    let r2 = run_actions(DriverPhase::FirstDrainPoll, i2);
    let r1 = run_actions(DriverPhase::ResetSent, i1);
    assert(r3 =~= seq![DriverAction::TakeCommand] + r4);
    assert(r2 =~= seq![DriverAction::Poll { forward: false, settle_ms: SHORT_SETTLE_MS }] + r3);
    assert(r1 =~= seq![DriverAction::Poll { forward: false, settle_ms: SHORT_SETTLE_MS }] + r2);
    assert(run_actions(DriverPhase::Start, ins) =~= seq![
        DriverAction::Send(Command::Reset, RESET_SETTLE_MS),
        DriverAction::Poll { forward: false, settle_ms: SHORT_SETTLE_MS },
        DriverAction::Poll { forward: false, settle_ms: SHORT_SETTLE_MS },
        DriverAction::TakeCommand,
    ]);
}

/// Whether an action sends Enable.
pub open spec fn sends_enable(a: DriverAction) -> bool {
    a matches DriverAction::Send(Command::Enable, _)
}

/// The driver sends Enable only in answer to an Enable request: a run of
/// inputs that holds no such request holds no Send of Enable.
pub proof fn lemma_enable_only_on_request(p: DriverPhase, ins: Seq<DriverInput>)
    requires
        forall|k: int|
            0 <= k < ins.len() ==> #[trigger] ins[k] != DriverInput::NextCommand(
                Some(CashCodeCommand::Enable),
            ),
    ensures
        forall|k: int|
            0 <= k < run_actions(p, ins).len() ==> !sends_enable(#[trigger] run_actions(p, ins)[k]),
    decreases ins.len(),
{
    if ins.len() > 0 {
        let (q, a) = driver_step_spec(p, ins[0]);
        let rest = ins.drop_first();
        assert forall|k: int|
            0 <= k < rest.len() implies #[trigger] rest[k] != DriverInput::NextCommand(
                Some(CashCodeCommand::Enable),
            ) by {
            assert(rest[k] == ins[k + 1]);
        }
        lemma_enable_only_on_request(q, rest);
        assert(ins[0] != DriverInput::NextCommand(Some(CashCodeCommand::Enable)));
        let acts = run_actions(p, ins);
        assert forall|k: int| 0 <= k < acts.len() implies !sends_enable(#[trigger] acts[k]) by {
            if k > 0 {
                assert(acts[k] == run_actions(q, rest)[k - 1]);
            }
        }
    }
}

/// An I/O error never ends the loop: it is followed by the backoff pause.
/// The loop stops only once the consumer is gone.
pub proof fn lemma_stop_only_when_consumer_gone(p: DriverPhase, i: DriverInput)
    requires
        p != DriverPhase::Stopped,
    ensures
        i == DriverInput::IoFailed ==> driver_step_spec(p, i).1 == DriverAction::Sleep(BACKOFF_MS)
            && driver_step_spec(p, i).0 != DriverPhase::Stopped,
        driver_step_spec(p, i).1 == DriverAction::Stop <==> i == DriverInput::ConsumerGone,
        driver_step_spec(p, i).0 == DriverPhase::Stopped <==> i == DriverInput::ConsumerGone,
{
}

/// The pause after an I/O error is longer than the pause between cycles, and
/// the settle after Reset is longer than the settle after a startup poll.
pub proof fn lemma_delay_order()
    ensures
        BACKOFF_MS > POLL_INTERVAL_MS,
        RESET_SETTLE_MS > SHORT_SETTLE_MS,
{
}

} // verus!
