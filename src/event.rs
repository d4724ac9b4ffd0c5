use vstd::prelude::*;
use crate::nominal::BillNominal;

verus! {

/// What the acceptor reports to the consumer of its events.
#[derive(Debug, Clone, PartialEq, Eq)]
pub enum BillEvent {
    Accepted(BillNominal),
    Rejected(String),
    StackerRemoved,
    StackerReplaced,
    Jam(String),
    Error(String),
}

/// A `BillEvent` with its texts as character sequences.
pub enum EventView {
    Accepted(BillNominal),
    Rejected(Seq<char>),
    StackerRemoved,
    StackerReplaced,
    Jam(Seq<char>),
    Error(Seq<char>),
}

impl View for BillEvent {
    type V = EventView;

    open spec fn view(&self) -> EventView {
        match self {
            BillEvent::Accepted(d) => EventView::Accepted(*d),
            BillEvent::Rejected(s) => EventView::Rejected(s@),
            BillEvent::StackerRemoved => EventView::StackerRemoved,
            BillEvent::StackerReplaced => EventView::StackerReplaced,
            BillEvent::Jam(s) => EventView::Jam(s@),
            BillEvent::Error(s) => EventView::Error(s@),
        }
    }
}

/// The view of an optional event.
pub open spec fn opt_event_view(e: Option<BillEvent>) -> Option<EventView> {
    match e {
        Some(ev) => Some(ev@),
        None => None,
    }
}

/// Upper-case hexadecimal digit of a value below 16.
pub open spec fn hex_digit(n: int) -> char {
    "0123456789ABCDEF"@[n]
}

/// Two upper-case hexadecimal digits of a byte.
pub open spec fn hex_byte(b: u8) -> Seq<char> {
    seq![hex_digit(b as int / 16), hex_digit(b as int % 16)]
}

/// Appends the two upper-case hexadecimal digits of `b`.
pub fn push_hex_byte(s: &mut String, b: u8)
    ensures
        final(s)@ == old(s)@ + hex_byte(b),
{
    let digits = "0123456789ABCDEF";
    proof {
        reveal_strlit("0123456789ABCDEF");
    }
    let hi = (b / 16) as usize;
    let lo = (b % 16) as usize;
    s.append(digits.substring_char(hi, hi + 1));
    s.append(digits.substring_char(lo, lo + 1));
    assert(s@ =~= old(s)@ + hex_byte(b));
}

/// Device failure code with a named condition.
pub const FAILURE_55: u8 = 0x55;

/// Text of a device failure event.
pub open spec fn failure_text(code: u8) -> Seq<char> {
    if code == FAILURE_55 {
        "FAILURE 55"@
    } else {
        "FAILURE 0x"@ + hex_byte(code)
    }
}

/// Text of a stacked bill whose nominal code is no known bill.
pub open spec fn unknown_nominal_text(code: u8) -> Seq<char> {
    "Unknown nominal: 0x"@ + hex_byte(code)
}

pub const REJECT_INSERTION: u8 = 0x60;
pub const REJECT_CONVEYING: u8 = 0x64;
pub const REJECT_IDENTIFICATION: u8 = 0x65;
pub const REJECT_VERIFICATION: u8 = 0x66;
pub const REJECT_INHIBITED: u8 = 0x68;
pub const REJECT_CAPACITY: u8 = 0x69;
pub const REJECT_OPERATION: u8 = 0x6A;

/// Reason of a rejection, by reject code.
pub open spec fn reject_reason(code: u8) -> Seq<char> {
    if code == REJECT_INSERTION {
        "Insertion error"@
    } else if code == REJECT_CONVEYING {
        "Conveying error"@
    } else if code == REJECT_IDENTIFICATION {
        "Identification error"@
    } else if code == REJECT_VERIFICATION {
        "Verification error"@
    } else if code == REJECT_INHIBITED {
        "Denomination inhibited"@
    } else if code == REJECT_CAPACITY {
        "Capacity error"@
    } else if code == REJECT_OPERATION {
        "Operation error"@
    } else {
        "Unknown error"@
    }
}

/// Text of a jam in the stacker.
pub open spec fn stacker_jam_text() -> Seq<char> {
    "Bill jam in stacker"@
}

/// Text of a jam in the acceptor.
pub open spec fn acceptor_jam_text() -> Seq<char> {
    "Bill jam in acceptor"@
}

/// The text of a device failure event.
pub fn failure_message(code: u8) -> (r: String)
    ensures
        r@ == failure_text(code),
{
    if code == FAILURE_55 {
        String::from_str("FAILURE 55")
    } else {
        let mut s = String::from_str("FAILURE 0x");
        push_hex_byte(&mut s, code);
        s
    }
}

/// The text of a stacked bill whose nominal code is no known bill.
pub fn unknown_nominal_message(code: u8) -> (r: String)
    ensures
        r@ == unknown_nominal_text(code),
{
    let mut s = String::from_str("Unknown nominal: 0x");
    push_hex_byte(&mut s, code);
    s
}

/// The reason of a rejection, by reject code.
pub fn reject_message(code: u8) -> (r: String)
    ensures
        r@ == reject_reason(code),
{
    let reason = match code {
        REJECT_INSERTION => "Insertion error",
        REJECT_CONVEYING => "Conveying error",
        REJECT_IDENTIFICATION => "Identification error",
        REJECT_VERIFICATION => "Verification error",
        REJECT_INHIBITED => "Denomination inhibited",
        REJECT_CAPACITY => "Capacity error",
        REJECT_OPERATION => "Operation error",
        _ => "Unknown error",
    };
    String::from_str(reason)
}

} // verus!
