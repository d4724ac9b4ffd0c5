use vstd::prelude::*;
use crate::event::{
    BillEvent, EventView, opt_event_view, stacker_jam_text, acceptor_jam_text, failure_text,
    reject_reason, unknown_nominal_text, failure_message, reject_message, unknown_nominal_message,
};
use crate::ledger::{Ledger, LedgerError, counts_after_record};
use crate::nominal::{BillNominal, nominal_of_code, NOMINAL_COUNT};
use crate::protocol::{
    Decoded, decode, decode_spec, STATUS_INITIALIZING, STATUS_DISABLED, STATUS_IDLING,
    STATUS_ACCEPTING, STATUS_STACKING, STATUS_STACKER_REMOVED, STATUS_JAM_IN_ACCEPTOR,
    STATUS_JAM_IN_STACKER, STATUS_FAILURE, STATUS_REJECTED, STATUS_BILL_STACKED,
};

verus! {

/// Whether the stacker is known to be out of the device, tracked across polls.
#[derive(Debug, Clone, Copy, PartialEq, Eq, Structural)]
pub enum DeviceSubState {
    StackerPresent,
    StackerRemoved,
}

/// What the driver does after one response.
#[derive(Debug, Clone, PartialEq, Eq)]
pub struct Reaction {
    /// The event for the consumer, if any.
    pub event: Option<BillEvent>,
    /// Whether to send the acknowledgement frame and then drain the input.
    pub ack: bool,
    /// Whether to send Enable after the re-enable delay.
    pub reenable: bool,
    /// The sub-state after this response.
    pub next_state: DeviceSubState,
}

/// Whether the status is one that the driver acknowledges.
pub open spec fn status_known(status: u8) -> bool {
    status == STATUS_INITIALIZING || status == STATUS_DISABLED || status == STATUS_IDLING
        || status == STATUS_ACCEPTING || status == STATUS_STACKING || status
        == STATUS_STACKER_REMOVED || status == STATUS_JAM_IN_STACKER || status
        == STATUS_JAM_IN_ACCEPTOR || status == STATUS_FAILURE || status == STATUS_REJECTED
        || status == STATUS_BILL_STACKED
}

/// Whether a decoded response is acknowledged.
pub open spec fn acks(d: Decoded) -> bool {
    match d {
        Decoded::Frame { status, payload } => status_known(status),
        _ => false,
    }
}

/// The payload byte of a frame, zero where it has none.
pub open spec fn payload_byte(p: Option<u8>) -> u8 {
    match p {
        Some(b) => b,
        None => 0,
    }
}

/// The event that a frame gives in a sub-state.
pub open spec fn frame_event(s: DeviceSubState, status: u8, payload: u8) -> Option<EventView> {
    if status == STATUS_DISABLED {
        if s == DeviceSubState::StackerRemoved {
            Some(EventView::StackerReplaced)
        } else {
            None
        }
    } else if status == STATUS_STACKER_REMOVED {
        if s == DeviceSubState::StackerPresent {
            Some(EventView::StackerRemoved)
        } else {
            None
        }
    } else if status == STATUS_JAM_IN_STACKER {
        Some(EventView::Jam(stacker_jam_text()))
    } else if status == STATUS_JAM_IN_ACCEPTOR {
        Some(EventView::Jam(acceptor_jam_text()))
    } else if status == STATUS_FAILURE {
        Some(EventView::Error(failure_text(payload)))
    } else if status == STATUS_REJECTED {
        Some(EventView::Rejected(reject_reason(payload)))
    } else if status == STATUS_BILL_STACKED {
        match nominal_of_code(payload) {
            Some(d) => Some(EventView::Accepted(d)),
            None => Some(EventView::Error(unknown_nominal_text(payload))),
        }
    } else {
        None
    }
}

/// The event that a decoded response gives in a sub-state.
pub open spec fn event_for(s: DeviceSubState, d: Decoded) -> Option<EventView> {
    match d {
        Decoded::Frame { status, payload } => frame_event(s, status, payload_byte(payload)),
        _ => None,
    }
}

/// The sub-state after a decoded response.
pub open spec fn next_sub_state(s: DeviceSubState, d: Decoded) -> DeviceSubState {
    match d {
        Decoded::Frame { status, payload } => if status == STATUS_DISABLED {
            DeviceSubState::StackerPresent
        } else if status == STATUS_STACKER_REMOVED {
            DeviceSubState::StackerRemoved
        } else {
            s
        },
        _ => s,
    }
}

/// Whether a decoded response asks for acceptance to be enabled again: the
/// device reports DISABLED after its stacker was put back.
pub open spec fn reenables(s: DeviceSubState, d: Decoded) -> bool {
    d matches Decoded::Frame { status, payload } && status == STATUS_DISABLED && s
        == DeviceSubState::StackerRemoved
}

/// Whether a reaction is the one that a decoded response calls for in a sub-state.
pub open spec fn reaction_matches(r: Reaction, s: DeviceSubState, d: Decoded) -> bool {
    &&& opt_event_view(r.event) == event_for(s, d)
    &&& r.ack == acks(d)
    &&& r.reenable == reenables(s, d)
    &&& r.next_state == next_sub_state(s, d)
}

/// Decides what a decoded response calls for in a sub-state.
pub fn dispatch(s: DeviceSubState, d: Decoded) -> (r: Reaction)
    ensures
        reaction_matches(r, s, d),
{
    let (status, payload) = match d {
        Decoded::Frame { status, payload } => (status, payload),
        _ => {
            return Reaction { event: None, ack: false, reenable: false, next_state: s };
        },
    };
    let p: u8 = match payload {
        Some(b) => b,
        None => 0,
    };
    let none = Reaction { event: None, ack: true, reenable: false, next_state: s };
    match status {
        STATUS_INITIALIZING | STATUS_IDLING | STATUS_ACCEPTING | STATUS_STACKING => none,
        STATUS_DISABLED => {
            let removed = s == DeviceSubState::StackerRemoved;
            Reaction {
                event: if removed {
                    Some(BillEvent::StackerReplaced)
                } else {
                    None
                },
                ack: true,
                reenable: removed,
                next_state: DeviceSubState::StackerPresent,
            }
        },
        STATUS_STACKER_REMOVED => {
            let present = s == DeviceSubState::StackerPresent;
            Reaction {
                event: if present {
                    Some(BillEvent::StackerRemoved)
                } else {
                    None
                },
                ack: true,
                reenable: false,
                next_state: DeviceSubState::StackerRemoved,
            }
        },
        STATUS_JAM_IN_STACKER => Reaction {
            event: Some(BillEvent::Jam(String::from_str("Bill jam in stacker"))),
            ..none
        },
        STATUS_JAM_IN_ACCEPTOR => Reaction {
            event: Some(BillEvent::Jam(String::from_str("Bill jam in acceptor"))),
            ..none
        },
        STATUS_FAILURE => Reaction { event: Some(BillEvent::Error(failure_message(p))), ..none },
        STATUS_REJECTED => Reaction { event: Some(BillEvent::Rejected(reject_message(p))), ..none },
        STATUS_BILL_STACKED => {
            let event = match BillNominal::from_code(p) {
                Some(n) => BillEvent::Accepted(n),
                None => BillEvent::Error(unknown_nominal_message(p)),
            };
            Reaction { event: Some(event), ..none }
        },
        _ => Reaction { event: None, ack: false, reenable: false, next_state: s },
    }
}

/// The driver's state between polls: the sub-state and the ledger.
pub struct BillAcceptor {
    sub_state: DeviceSubState,
    ledger: Ledger,
}

impl BillAcceptor {
    /// The ledger holds one count for each bill.
    pub open spec fn wf(&self) -> bool {
        self.counts().len() == NOMINAL_COUNT
    }

    /// The current sub-state.
    pub closed spec fn state(&self) -> DeviceSubState {
        self.sub_state
    }

    /// The current counts, in ascending order of face value.
    pub closed spec fn counts(&self) -> Seq<u32> {
        self.ledger@
    }

    /// A driver state with the stacker present and the given ledger.
    pub fn new(ledger: Ledger) -> (r: BillAcceptor)
        requires
            ledger.wf(),
        ensures
            r.wf(),
            r.state() == DeviceSubState::StackerPresent,
            r.counts() == ledger@,
    {
        BillAcceptor { sub_state: DeviceSubState::StackerPresent, ledger }
    }

    /// The current sub-state.
    pub fn sub_state(&self) -> (r: DeviceSubState)
        ensures
            r == self.state(),
    {
        self.sub_state
    }

    /// The ledger.
    pub fn ledger(&self) -> (r: &Ledger)
        requires
            self.wf(),
        ensures
            r.wf(),
            r@ == self.counts(),
    {
        &self.ledger
    }

    /// Handles one response buffer: decodes it, decides what it calls for,
    /// moves to the next sub-state and records an accepted bill in the ledger.
    /// The second part of the result is the ledger's refusal, if it refused;
    /// the event is reported either way.
    pub fn handle_response(&mut self, response: &[u8]) -> (r: (Reaction, Option<LedgerError>))
        requires
            old(self).wf(),
        ensures
            final(self).wf(),
            reaction_matches(r.0, old(self).state(), decode_spec(response@)),
            final(self).state() == r.0.next_state,
            match event_for(old(self).state(), decode_spec(response@)) {
                Some(EventView::Accepted(d)) => if old(self).counts()[d.spec_index()] < u32::MAX {
                    r.1 is None && final(self).counts() == counts_after_record(old(self).counts(), d)
                } else {
                    r.1 == Some(LedgerError::CountOverflow(d)) && final(self).counts() == old(
                        self,
                    ).counts()
                },
                _ => r.1 is None && final(self).counts() == old(self).counts(),
            },
            response@.len() < 4 ==> r.0.event is None && !r.0.ack && final(self).state() == old(
                self,
            ).state() && final(self).counts() == old(self).counts(),
    {
        let d = decode(response);
        let reaction = dispatch(self.sub_state, d);
        self.sub_state = reaction.next_state;
        let mut refused: Option<LedgerError> = None;
        if let Some(BillEvent::Accepted(n)) = &reaction.event {
            if let Err(e) = self.ledger.record_accepted(*n) {
                refused = Some(e);
            }
        }
        (reaction, refused)
    }
}

/// The events that a run of decoded responses gives, starting in a sub-state.
pub open spec fn run_events(s: DeviceSubState, ds: Seq<Decoded>) -> Seq<Option<EventView>>
    decreases ds.len(),
{
    if ds.len() == 0 {
        seq![]
    } else {
        seq![event_for(s, ds[0])] + run_events(next_sub_state(s, ds[0]), ds.drop_first())
    }
}

/// How many of the events report the stacker removed.
pub open spec fn removal_count(es: Seq<Option<EventView>>) -> nat
    decreases es.len(),
{
    if es.len() == 0 {
        0
    } else {
        (if es[0] matches Some(EventView::StackerRemoved) {
            1nat
        } else {
            0nat
        }) + removal_count(es.drop_first())
    }
}

/// Whether a decoded response is a frame with this status.
pub open spec fn is_status(d: Decoded, st: u8) -> bool {
    d matches Decoded::Frame { status, payload } && status == st
}

/// A run of responses without DISABLED reports the stacker removed once if it
/// holds a STACKER_REMOVED frame and starts with the stacker present, and
/// never otherwise: repeated STACKER_REMOVED statuses are reported once.
pub proof fn lemma_stacker_removal_reported_once(s: DeviceSubState, ds: Seq<Decoded>)
    requires
        forall|i: int| 0 <= i < ds.len() ==> !is_status(#[trigger] ds[i], STATUS_DISABLED),
    ensures
        removal_count(run_events(s, ds)) == if s == DeviceSubState::StackerPresent && exists|i: int|
            0 <= i < ds.len() && is_status(#[trigger] ds[i], STATUS_STACKER_REMOVED) {
            1nat
        } else {
            0nat
        },
    decreases ds.len(),
{
    if ds.len() > 0 {
        let rest = ds.drop_first();
        assert forall|i: int| 0 <= i < rest.len() implies !is_status(
            #[trigger] rest[i],
            STATUS_DISABLED,
        ) by {
            assert(rest[i] == ds[i + 1]);
        }
        let es = run_events(s, ds);
        assert(es.drop_first() =~= run_events(next_sub_state(s, ds[0]), rest));
        lemma_stacker_removal_reported_once(next_sub_state(s, ds[0]), rest);
        if is_status(ds[0], STATUS_STACKER_REMOVED) {
            assert(next_sub_state(s, ds[0]) == DeviceSubState::StackerRemoved);
        } else {
            assert(next_sub_state(s, ds[0]) == s);
            if exists|i: int| 0 <= i < ds.len() && is_status(#[trigger] ds[i], STATUS_STACKER_REMOVED) {
                let i = choose|i: int| 0 <= i < ds.len() && is_status(#[trigger] ds[i], STATUS_STACKER_REMOVED);
                assert(rest[i - 1] == ds[i]);
            }
            if exists|i: int| 0 <= i < rest.len() && is_status(#[trigger] rest[i], STATUS_STACKER_REMOVED) {
                let i = choose|i: int| 0 <= i < rest.len() && is_status(#[trigger] rest[i], STATUS_STACKER_REMOVED);
                assert(ds[i + 1] == rest[i]);
            }
        }
    }
}

/// The counts after a run of decoded responses, starting in a sub-state: each
/// accepted bill is recorded once.
pub open spec fn run_counts(s: DeviceSubState, c: Seq<u32>, ds: Seq<Decoded>) -> Seq<u32>
    decreases ds.len(),
{
    if ds.len() == 0 {
        c
    } else {
        let c1 = match event_for(s, ds[0]) {
            Some(EventView::Accepted(d)) => counts_after_record(c, d),
            _ => c,
        };
        run_counts(next_sub_state(s, ds[0]), c1, ds.drop_first())
    }
}

/// How many of the events report bill `d` accepted.
pub open spec fn accepted_count(es: Seq<Option<EventView>>, d: BillNominal) -> nat
    decreases es.len(),
{
    if es.len() == 0 {
        0
    } else {
        (if es[0] == Some(EventView::Accepted(d)) {
            1nat
        } else {
            0nat
        }) + accepted_count(es.drop_first(), d)
    }
}

/// Over a run of responses, the count of each bill grows by exactly the
/// number of events that report it accepted, as long as no count reaches the
/// largest `u32`.
pub proof fn lemma_counts_follow_accepted_events(
    s: DeviceSubState,
    c: Seq<u32>,
    ds: Seq<Decoded>,
    d: BillNominal,
)
    requires
        c.len() == NOMINAL_COUNT,
        forall|i: int| 0 <= i < NOMINAL_COUNT ==> #[trigger] c[i] + ds.len() <= u32::MAX,
    ensures
        run_counts(s, c, ds).len() == NOMINAL_COUNT,
        run_counts(s, c, ds)[d.spec_index()] == c[d.spec_index()] + accepted_count(
            run_events(s, ds),
            d,
        ),
    decreases ds.len(),
{
    if ds.len() > 0 {
        let es = run_events(s, ds);
        let c1 = match event_for(s, ds[0]) {
            Some(EventView::Accepted(e)) => counts_after_record(c, e),
            _ => c,
        };
        assert forall|i: int| 0 <= i < NOMINAL_COUNT implies #[trigger] c1[i] + ds.drop_first().len()
            <= u32::MAX by {
            assert(c[i] + ds.len() <= u32::MAX);
        }
        assert(es.drop_first() =~= run_events(next_sub_state(s, ds[0]), ds.drop_first()));
        lemma_counts_follow_accepted_events(next_sub_state(s, ds[0]), c1, ds.drop_first(), d);
    }
}

/// A buffer shorter than four bytes gives no event, no acknowledgement and no
/// change of sub-state, whatever the sub-state.
pub proof fn lemma_short_response_inert(s: DeviceSubState, b: Seq<u8>)
    requires
        b.len() < 4,
    ensures
        event_for(s, decode_spec(b)) is None,
        !acks(decode_spec(b)),
        !reenables(s, decode_spec(b)),
        next_sub_state(s, decode_spec(b)) == s,
{
}

} // verus!
