//! The frame: a command or a reply as it travels on the serial line.
//!
//! A frame is the opcode, the length of the payload in one byte, the
//! payload, a checksum over all of these, and the end mark:
//!
//! ```text
//! | opcode | length | payload ... | checksum | EOT |
//! ```

use crate::command::{Command, Packet, Reply};
use crate::error::Error;
use vstd::prelude::*;

verus! {

/// The byte that ends every frame.
pub const EOT: u8 = 0x04;

/// The bytes in front of the payload: opcode and length.
pub const HEADER_LEN: usize = 2;

/// The bytes behind the payload: checksum and end mark.
pub const TRAILER_LEN: usize = 2;

/// One step of the checksum register: a shift to the left, and the
/// polynomial x^8 + x^2 + x + 1 taken off where a bit fell out.
pub open spec fn shift(register: u8) -> u8 {
    if register & 0x80 == 0x80 {
        (register << 1) ^ 0x07
    } else {
        register << 1
    }
}

/// `count` steps of the checksum register.
pub open spec fn shifts(register: u8, count: nat) -> u8
    decreases count,
{
    if count == 0 {
        register
    } else {
        shift(shifts(register, (count - 1) as nat))
    }
}

/// The checksum register after one more byte.
pub open spec fn absorb(register: u8, byte: u8) -> u8 {
    shifts(register ^ byte, 8)
}

/// The checksum of a run of bytes: the CRC-8 with polynomial 0x07, from a
/// register that starts at zero, the high bit first.
pub open spec fn checksum(bytes: Seq<u8>) -> u8
    decreases bytes.len(),
{
    if bytes.len() == 0 {
        0
    } else {
        absorb(checksum(bytes.drop_last()), bytes.last())
    }
}

/// What the checksum of a frame covers: opcode, length and payload.
pub open spec fn body(packet: Packet) -> Seq<u8> {
    seq![packet.opcode, packet.payload.len() as u8] + packet.payload
}

/// The frame of a packet.
pub open spec fn frame(packet: Packet) -> Seq<u8> {
    body(packet) + seq![checksum(body(packet)), EOT]
}

/// Whether the bytes are a frame: long enough, as long as their length byte
/// says, with the right checksum and the end mark.
pub open spec fn is_frame(bytes: Seq<u8>) -> bool {
    &&& bytes.len() >= HEADER_LEN + TRAILER_LEN
    &&& bytes[1] as int == bytes.len() - HEADER_LEN - TRAILER_LEN
    &&& bytes[bytes.len() - TRAILER_LEN] == checksum(bytes.take(bytes.len() - TRAILER_LEN))
    &&& bytes[bytes.len() - 1] == EOT
}

/// What the bytes say, where they are a frame.
pub open spec fn parse(bytes: Seq<u8>) -> Option<Packet> {
    if is_frame(bytes) {
        Some(
            Packet {
                opcode: bytes[0],
                payload: bytes.subrange(HEADER_LEN as int, bytes.len() - TRAILER_LEN),
            },
        )
    } else {
        None
    }
}

fn shifted(register: u8) -> (next: u8)
    ensures
        next == shift(register),
{
    if register & 0x80 == 0x80 {
        (register << 1) ^ 0x07
    } else {
        register << 1
    }
}

fn absorbed(register: u8, byte: u8) -> (next: u8)
    ensures
        next == absorb(register, byte),
{
    let mut next: u8 = register ^ byte;
    let mut count: u8 = 0;
    while count < 8
        invariant
            count <= 8,
            next == shifts(register ^ byte, count as nat),
        decreases 8 - count,
    {
        next = shifted(next);
        count += 1;
    }
    next
}

/// Computes the checksum of a run of bytes.
pub fn crc8(bytes: &[u8]) -> (sum: u8)
    ensures
        sum == checksum(bytes@),
{
    let mut sum: u8 = 0;
    let mut i: usize = 0;
    while i < bytes.len()
        invariant
            i <= bytes@.len(),
            sum == checksum(bytes@.take(i as int)),
        decreases bytes@.len() - i,
    {
        assert(bytes@.take(i + 1).drop_last() =~= bytes@.take(i as int));
        sum = absorbed(sum, bytes[i]);
        i += 1;
    }
    assert(bytes@.take(i as int) =~= bytes@);
    sum
}

/// Frames a command for the serial line.
pub fn encode(command: &Command) -> (bytes: Vec<u8>)
    ensures
        bytes@ == frame(command@),
        bytes@.len() == command@.payload.len() + HEADER_LEN + TRAILER_LEN,
        command@.fits(),
{
    let payload = command.payload();
    let mut bytes: Vec<u8> = Vec::new();
    bytes.push(command.opcode());
    bytes.push(payload.len() as u8);
    let mut i: usize = 0;
    while i < payload.len()
        invariant
            i <= payload@.len(),
            payload@ == command@.payload,
            bytes@ == seq![command@.opcode, payload@.len() as u8] + payload@.take(i as int),
        decreases payload@.len() - i,
    {
        bytes.push(payload[i]);
        assert(payload@.take(i + 1) =~= payload@.take(i as int).push(payload@[i as int]));
        assert(bytes@ =~= seq![command@.opcode, payload@.len() as u8] + payload@.take(i + 1));
        i += 1;
    }
    assert(payload@.take(i as int) =~= payload@);
    let sum: u8 = crc8(bytes.as_slice());
    bytes.push(sum);
    bytes.push(EOT);
    assert(bytes@ =~= frame(command@));
    bytes
}

/// Reads a frame. The bytes must be one whole frame and nothing else, or
/// they are malformed.
pub fn decode(bytes: &[u8]) -> (read: Result<Reply, Error>)
    ensures
        match read {
            Ok(reply) => parse(bytes@) == Some(reply@),
            Err(error) => parse(bytes@) is None && error == Error::MalformedFrame,
        },
{
    let len: usize = bytes.len();
    if len < HEADER_LEN + TRAILER_LEN {
        return Err(Error::MalformedFrame);
    }
    if bytes[1] as usize != len - HEADER_LEN - TRAILER_LEN {
        return Err(Error::MalformedFrame);
    }
    if bytes[len - 1] != EOT {
        return Err(Error::MalformedFrame);
    }
    let end: usize = len - TRAILER_LEN;
    let covered = vstd::slice::slice_subrange(bytes, 0, end);
    assert(covered@ =~= bytes@.take(end as int));
    if bytes[end] != crc8(covered) {
        return Err(Error::MalformedFrame);
    }
    let mut payload: Vec<u8> = Vec::new();
    let mut i: usize = HEADER_LEN;
    while i < end
        invariant
            end == bytes@.len() - TRAILER_LEN,
            HEADER_LEN <= i <= end,
            payload@ == bytes@.subrange(HEADER_LEN as int, i as int),
        decreases end - i,
    {
        payload.push(bytes[i]);
        assert(bytes@.subrange(HEADER_LEN as int, i + 1) =~= bytes@.subrange(
            HEADER_LEN as int,
            i as int,
        ).push(bytes@[i as int]));
        i += 1;
    }
    Ok(Reply::new(bytes[0], payload))
}

/// A frame reads back as the packet that it was made of.
pub proof fn lemma_frame_parses(packet: Packet)
    requires
        packet.fits(),
    ensures
        parse(frame(packet)) == Some(packet),
{
    let bytes = frame(packet);
    assert(bytes.take(bytes.len() - TRAILER_LEN) =~= body(packet));
    assert(bytes.subrange(HEADER_LEN as int, bytes.len() - TRAILER_LEN) =~= packet.payload);
}

/// Bytes that read as a packet are the frame of that packet, and of no
/// other: a packet has one frame, and a frame one packet.
pub proof fn lemma_parse_frames(bytes: Seq<u8>)
    requires
        parse(bytes) is Some,
    ensures
        parse(bytes)->0.fits(),
        frame(parse(bytes)->0) == bytes,
{
    let packet = parse(bytes)->0;
    assert(body(packet) =~= bytes.take(bytes.len() - TRAILER_LEN));
    assert(frame(packet) =~= bytes);
}

} // verus!
