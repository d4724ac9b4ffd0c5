use vstd::prelude::*;

verus! {

/// First byte of every frame.
pub const FRAME_SYNC: u8 = 0x02;
/// Second byte of every frame: the peripheral address of a bill validator.
pub const FRAME_ADDRESS: u8 = 0x03;

pub const STATUS_INITIALIZING: u8 = 0x13;
pub const STATUS_DISABLED: u8 = 0x19;
pub const STATUS_IDLING: u8 = 0x14;
pub const STATUS_ACCEPTING: u8 = 0x15;
pub const STATUS_STACKING: u8 = 0x17;
pub const STATUS_STACKER_FULL: u8 = 0x41;
pub const STATUS_STACKER_REMOVED: u8 = 0x42;
pub const STATUS_JAM_IN_ACCEPTOR: u8 = 0x43;
pub const STATUS_JAM_IN_STACKER: u8 = 0x44;
pub const STATUS_FAILURE: u8 = 0x47;
pub const STATUS_REJECTED: u8 = 0x1C;
pub const STATUS_BILL_STACKED: u8 = 0x81;

/// A request that the host sends to the acceptor.
#[derive(Debug, Clone, Copy, PartialEq, Eq, Structural)]
pub enum Command {
    Poll,
    Reset,
    Enable,
    Disable,
}

/// A request from the controller to the driver loop.
#[derive(Debug, Clone, Copy, PartialEq, Eq, Structural)]
pub enum CashCodeCommand {
    Enable,
    Disable,
}

impl CashCodeCommand {
    /// The device command that carries out the request.
    pub fn command(&self) -> (r: Command)
        ensures
            *self == CashCodeCommand::Enable ==> r == Command::Enable,
            *self == CashCodeCommand::Disable ==> r == Command::Disable,
    {
        match self {
            CashCodeCommand::Enable => Command::Enable,
            CashCodeCommand::Disable => Command::Disable,
        }
    }
}

/// The bytes of a command frame, checksum trailer included.
pub open spec fn command_frame(c: Command) -> Seq<u8> {
    match c {
        Command::Poll => seq![0x02u8, 0x03, 0x06, 0x33, 0xDA, 0x81],
        Command::Reset => seq![0x02u8, 0x03, 0x06, 0x30, 0x41, 0xB3],
        Command::Enable => seq![0x02u8, 0x03, 0x0C, 0x34, 0xFF, 0xFF, 0xFF, 0x00, 0x00, 0x00, 0xB5, 0xC1],
        Command::Disable => seq![0x02u8, 0x03, 0x0C, 0x34, 0x00, 0x00, 0x00, 0x00, 0x00, 0x00, 0xB5, 0xC1],
    }
}

/// The acknowledgement frame.
pub open spec fn ack_frame() -> Seq<u8> {
    seq![0x02u8, 0x03, 0x06, 0x00, 0xC2, 0x82]
}

/// The bytes to write for a command.
pub fn encode(c: Command) -> (r: Vec<u8>)
    ensures
        r@ == command_frame(c),
{
    let r = match c {
        Command::Poll => vec![0x02u8, 0x03, 0x06, 0x33, 0xDA, 0x81],
        Command::Reset => vec![0x02u8, 0x03, 0x06, 0x30, 0x41, 0xB3],
        Command::Enable => vec![0x02u8, 0x03, 0x0C, 0x34, 0xFF, 0xFF, 0xFF, 0x00, 0x00, 0x00, 0xB5, 0xC1],
        Command::Disable => vec![0x02u8, 0x03, 0x0C, 0x34, 0x00, 0x00, 0x00, 0x00, 0x00, 0x00, 0xB5, 0xC1],
    };
    assert(r@ =~= command_frame(c));
    r
}

/// The bytes of the acknowledgement frame.
pub fn ack() -> (r: Vec<u8>)
    ensures
        r@ == ack_frame(),
{
    let r = vec![0x02u8, 0x03, 0x06, 0x00, 0xC2, 0x82];
    assert(r@ =~= ack_frame());
    r
}

/// Whether a response is exactly the acknowledgement frame.
pub fn is_ack(response: &[u8]) -> (r: bool)
    ensures
        r == (response@ == ack_frame()),
{
    let expected = ack();
    if response.len() != expected.len() {
        return false;
    }
    let mut i: usize = 0;
    while i < response.len()
        invariant
            response@.len() == expected@.len(),
            expected@ == ack_frame(),
            0 <= i <= response@.len(),
            forall|j: int| 0 <= j < i ==> response@[j] == expected@[j],
        decreases response@.len() - i,
    {
        if response[i] != expected[i] {
            return false;
        }
        i = i + 1;
    }
    assert(response@ =~= ack_frame());
    true
}

/// Whether frames of this status carry a payload byte after the status byte.
pub open spec fn carries_payload(status: u8) -> bool {
    status == STATUS_FAILURE || status == STATUS_REJECTED || status == STATUS_BILL_STACKED
}

/// What a response buffer holds.
#[derive(Debug, Clone, Copy, PartialEq, Eq, Structural)]
pub enum Decoded {
    /// Too short to hold a complete frame; the device may send it again.
    Incomplete,
    /// The buffer does not start with the frame header.
    Unrecognized,
    /// A frame: its status byte, and the payload byte of the statuses that carry one.
    Frame { status: u8, payload: Option<u8> },
}

impl Decoded {
    pub open spec fn is_frame(self) -> bool {
        self is Frame
    }
}

/// How a response buffer decodes.
pub open spec fn decode_spec(b: Seq<u8>) -> Decoded {
    if b.len() < 2 {
        Decoded::Incomplete
    } else if b[0] != FRAME_SYNC || b[1] != FRAME_ADDRESS {
        Decoded::Unrecognized
    } else if b.len() < 4 {
        Decoded::Incomplete
    } else if carries_payload(b[3]) {
        if b.len() < 5 {
            Decoded::Incomplete
        } else {
            Decoded::Frame { status: b[3], payload: Some(b[4]) }
        }
    } else {
        Decoded::Frame { status: b[3], payload: None }
    }
}

/// Decodes a response buffer. Byte 2, the declared length, and the checksum
/// trailer are not read.
pub fn decode(b: &[u8]) -> (r: Decoded)
    ensures
        r == decode_spec(b@),
        b@.len() < 4 ==> !r.is_frame(),
{
    if b.len() < 2 {
        Decoded::Incomplete
    } else if b[0] != FRAME_SYNC || b[1] != FRAME_ADDRESS {
        Decoded::Unrecognized
    } else if b.len() < 4 {
        Decoded::Incomplete
    } else {
        let status = b[3];
        if status == STATUS_FAILURE || status == STATUS_REJECTED || status == STATUS_BILL_STACKED {
            if b.len() < 5 {
                Decoded::Incomplete
            } else {
                Decoded::Frame { status, payload: Some(b[4]) }
            }
        } else {
            Decoded::Frame { status, payload: None }
        }
    }
}

} // verus!
