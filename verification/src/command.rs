//! Commands and replies: an opcode and up to 255 bytes of payload.

use crate::color::Color;
use vstd::prelude::*;

verus! {

/// The opcode of the command that asks the device whether it is there.
pub const PING: u8 = 0x00;

/// The opcode by which the device acknowledges a command.
pub const ACK: u8 = 0x06;

/// The opcode of the command that sets the colour.
pub const UPDATE_COLOR: u8 = 0x20;

/// The longest payload: its length travels in one byte.
pub const MAX_PAYLOAD: usize = 255;

/// What a command or a reply says: the model of both.
pub struct Packet {
    /// What is asked or answered.
    pub opcode: u8,
    /// The bytes that go with it.
    pub payload: Seq<u8>,
}

impl Packet {
    /// Whether the payload is short enough to be framed.
    pub open spec fn fits(self) -> bool {
        self.payload.len() <= MAX_PAYLOAD
    }
}

/// A request to the device. Its payload is never longer than
/// [`MAX_PAYLOAD`].
#[derive(Debug, PartialEq, Eq)]
pub struct Command {
    opcode: u8,
    payload: Vec<u8>,
}

impl View for Command {
    type V = Packet;

    closed spec fn view(&self) -> Packet {
        Packet { opcode: self.opcode, payload: self.payload@ }
    }
}

impl Command {
    #[verifier::type_invariant]
    spec fn framable(&self) -> bool {
        self.payload@.len() <= MAX_PAYLOAD
    }

    /// Makes a command, unless the payload is too long for one.
    pub fn new(opcode: u8, payload: &[u8]) -> (made: Option<Command>)
        ensures
            match made {
                Some(command) => payload@.len() <= MAX_PAYLOAD && command@ == (Packet {
                    opcode,
                    payload: payload@,
                }),
                None => payload@.len() > MAX_PAYLOAD,
            },
    {
        if payload.len() > MAX_PAYLOAD {
            return None;
        }
        let mut copy: Vec<u8> = Vec::new();
        let mut i: usize = 0;
        while i < payload.len()
            invariant
                i <= payload@.len(),
                copy@ == payload@.take(i as int),
            decreases payload@.len() - i,
        {
            copy.push(payload[i]);
            assert(payload@.take(i + 1) =~= payload@.take(i as int).push(payload@[i as int]));
            i += 1;
        }
        assert(payload@.take(i as int) =~= payload@);
        Some(Command { opcode, payload: copy })
    }

    /// The command that asks the device whether it is there: no payload.
    pub fn ping() -> (command: Command)
        ensures
            command@ == (Packet { opcode: PING, payload: Seq::empty() }),
    {
        Command { opcode: PING, payload: Vec::new() }
    }

    /// The command that sets the colour: its payload is the hue, the
    /// saturation and the value, in that order.
    pub fn update_color(color: &Color) -> (command: Command)
        ensures
            command@ == (Packet { opcode: UPDATE_COLOR, payload: color.channels() }),
    {
        Command { opcode: UPDATE_COLOR, payload: color.payload() }
    }

    /// What is asked.
    pub fn opcode(&self) -> (opcode: u8)
        ensures
            opcode == self@.opcode,
    {
        self.opcode
    }

    /// The bytes that go with it.
    pub fn payload(&self) -> (payload: &[u8])
        ensures
            payload@ == self@.payload,
            self@.fits(),
    {
        proof {
            use_type_invariant(self);
        }
        self.payload.as_slice()
    }
}

/// An answer from the device. Its payload is never longer than
/// [`MAX_PAYLOAD`]: it came out of a frame.
#[derive(Debug, PartialEq, Eq)]
pub struct Reply {
    opcode: u8,
    payload: Vec<u8>,
}

impl View for Reply {
    type V = Packet;

    closed spec fn view(&self) -> Packet {
        Packet { opcode: self.opcode, payload: self.payload@ }
    }
}

impl Reply {
    #[verifier::type_invariant]
    spec fn framable(&self) -> bool {
        self.payload@.len() <= MAX_PAYLOAD
    }

    /// The reply with this opcode and this payload.
    pub(crate) fn new(opcode: u8, payload: Vec<u8>) -> (reply: Reply)
        requires
            payload@.len() <= MAX_PAYLOAD,
        ensures
            reply@ == (Packet { opcode, payload: payload@ }),
    {
        Reply { opcode, payload }
    }

    /// What is answered.
    pub fn opcode(&self) -> (opcode: u8)
        ensures
            opcode == self@.opcode,
    {
        self.opcode
    }

    /// The bytes that go with it.
    pub fn payload(&self) -> (payload: &[u8])
        ensures
            payload@ == self@.payload,
            self@.fits(),
    {
        proof {
            use_type_invariant(self);
        }
        self.payload.as_slice()
    }
}

} // verus!
