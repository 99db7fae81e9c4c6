//! The device as the host sees it: one exchange of command and reply at a
//! time.
//!
//! A [`Device`] holds no serial line. A call such as [`Device::ping`] begins
//! an exchange and hands out the first [`Action`]; the caller performs it on
//! its line and reports the [`Event`] to [`Device::handle`], which hands out
//! the next, until the action is [`Action::Finish`]:
//!
//! ```text
//! Idle -> Sending -> AwaitingHeader -> AwaitingBody -> Idle
//!           write        read 2          read n + 2     finish
//! ```
//!
//! The reply is read in two portions because its length is in its header.
//! When the second is in, the reply is validated: it has to be a frame, and
//! the frame an acknowledgment.

use crate::color::Color;
use crate::command::{Command, Packet, Reply, ACK, PING, UPDATE_COLOR};
use crate::error::Error;
use crate::frame::{decode, encode, frame, lemma_frame_parses, parse, HEADER_LEN, TRAILER_LEN};
use vstd::prelude::*;
use vstd::string::*;

verus! {

/// The speed of the serial line, in bits per second.
pub const BAUD_RATE: u32 = 115_200;

/// How long a read on the serial line may take, in milliseconds.
pub const TIMEOUT_MS: u64 = 10;

/// Where an exchange stands.
#[derive(Clone, Copy, Debug, PartialEq, Eq, Structural)]
pub enum State {
    /// No exchange is under way.
    Idle,
    /// The frame of the command is being written.
    Sending,
    /// The command is out, and the header of the reply is being read.
    AwaitingHeader,
    /// The header of the reply is in, and the rest is being read.
    AwaitingBody {
        /// The opcode that the header gave.
        opcode: u8,
        /// The length of the payload that the header gave.
        length: u8,
    },
}

/// What the caller has to do on the serial line.
#[derive(Debug, PartialEq, Eq)]
pub enum Action {
    /// Write these bytes, all of them.
    Write(Vec<u8>),
    /// Read exactly this many bytes, within the timeout.
    Read(usize),
    /// Nothing more: the exchange is over, with this result.
    Finish(Result<(), Error>),
}

/// An [`Action`] as a mathematical value.
pub enum ActionView {
    Write(Seq<u8>),
    Read(nat),
    Finish(Result<(), Error>),
}

impl View for Action {
    type V = ActionView;

    open spec fn view(&self) -> ActionView {
        match *self {
            Action::Write(bytes) => ActionView::Write(bytes@),
            Action::Read(count) => ActionView::Read(count as nat),
            Action::Finish(result) => ActionView::Finish(result),
        }
    }
}

/// What the serial line did with the last action.
#[derive(Debug, PartialEq, Eq)]
pub enum Event {
    /// The bytes were written.
    Written,
    /// The write failed.
    WriteFailed,
    /// These bytes were read.
    Received(Vec<u8>),
    /// The read ran out of time before the bytes were there.
    TimedOut,
    /// The read failed.
    ReadFailed,
}

/// An [`Event`] as a mathematical value.
pub enum EventView {
    Written,
    WriteFailed,
    Received(Seq<u8>),
    TimedOut,
    ReadFailed,
}

impl View for Event {
    type V = EventView;

    open spec fn view(&self) -> EventView {
        match *self {
            Event::Written => EventView::Written,
            Event::WriteFailed => EventView::WriteFailed,
            Event::Received(bytes) => EventView::Received(bytes@),
            Event::TimedOut => EventView::TimedOut,
            Event::ReadFailed => EventView::ReadFailed,
        }
    }
}

/// Whether a reply is the one that a command waits for: an acknowledgment.
/// Its payload is not looked at.
pub open spec fn acknowledges(reply: Packet) -> Result<(), Error> {
    if reply.opcode == ACK {
        Ok(())
    } else {
        Err(Error::UnexpectedReply)
    }
}

/// What the bytes of a reply amount to: they have to be a frame, and the
/// frame an acknowledgment.
pub open spec fn validate(bytes: Seq<u8>) -> Result<(), Error> {
    match parse(bytes) {
        Some(reply) => acknowledges(reply),
        None => Err(Error::MalformedFrame),
    }
}

/// How an exchange begins: the frame of the command is to be written,
/// whatever state the device was in.
pub open spec fn begin(state: State, command: Packet) -> (State, ActionView) {
    (State::Sending, ActionView::Write(frame(command)))
}

/// How an exchange ends: the device is idle again.
pub open spec fn finish(result: Result<(), Error>) -> (State, ActionView) {
    (State::Idle, ActionView::Finish(result))
}

/// How an exchange goes on after an event.
///
/// An event that does not answer the action under way, or bytes that are
/// not as many as were asked for, count as a failure of the line.
pub open spec fn step(state: State, event: EventView) -> (State, ActionView) {
    match (state, event) {
        (State::Sending, EventView::Written) => (
            State::AwaitingHeader,
            ActionView::Read(HEADER_LEN as nat),
        ),
        (State::AwaitingHeader, EventView::Received(header)) => if header.len() == HEADER_LEN {
            (
                State::AwaitingBody { opcode: header[0], length: header[1] },
                ActionView::Read((header[1] + TRAILER_LEN) as nat),
            )
        } else {
            finish(Err(Error::IoError))
        },
        (State::AwaitingBody { opcode, length }, EventView::Received(rest)) => if rest.len()
            == length + TRAILER_LEN {
            finish(validate(seq![opcode, length] + rest))
        } else {
            finish(Err(Error::IoError))
        },
        (State::AwaitingHeader, EventView::TimedOut) => finish(Err(Error::TimeoutError)),
        (State::AwaitingBody { .. }, EventView::TimedOut) => finish(Err(Error::TimeoutError)),
        _ => finish(Err(Error::IoError)),
    }
}

/// What a read of `count` bytes gives when `incoming` is what the device
/// has sent: its first `count` bytes, or a timeout where it has fewer.
pub open spec fn portion(incoming: Seq<u8>, count: nat) -> EventView {
    if incoming.len() >= count {
        EventView::Received(incoming.take(count as int))
    } else {
        EventView::TimedOut
    }
}

/// What such a read leaves of `incoming`: a read that times out takes
/// nothing.
pub open spec fn unread(incoming: Seq<u8>, count: nat) -> Seq<u8> {
    if incoming.len() >= count {
        incoming.skip(count as int)
    } else {
        incoming
    }
}

/// How an exchange came out.
pub struct Outcome {
    /// The state in which the host's end is left.
    pub state: State,
    /// The result that the caller gets.
    pub result: Result<(), Error>,
    /// What the device has sent and nobody has read.
    pub unread: Seq<u8>,
}

/// How an exchange goes on a line that writes and reads without fault, when
/// `incoming` is what the device sends.
pub open spec fn exchange(state: State, command: Packet, incoming: Seq<u8>) -> Outcome {
    let sent = step(begin(state, command).0, EventView::Written);
    let header = step(sent.0, portion(incoming, HEADER_LEN as nat));
    match header.1 {
        ActionView::Read(count) => {
            let behind = unread(incoming, HEADER_LEN as nat);
            let rest = step(header.0, portion(behind, count));
            Outcome {
                state: rest.0,
                result: match rest.1 {
                    ActionView::Finish(result) => result,
                    _ => Err(Error::IoError),
                },
                unread: unread(behind, count),
            }
        },
        ActionView::Finish(result) => Outcome { state: header.0, result, unread: incoming },
        ActionView::Write(_) => Outcome {
            state: header.0,
            result: Err(Error::IoError),
            unread: incoming,
        },
    }
}

/// Says whether a reply is the one that a command waits for.
pub fn expect_ack(reply: &Reply) -> (result: Result<(), Error>)
    ensures
        result == acknowledges(reply@),
{
    if reply.opcode() == ACK {
        Ok(())
    } else {
        Err(Error::UnexpectedReply)
    }
}

/// Says what the bytes of a reply amount to.
pub fn validate_reply(bytes: &[u8]) -> (result: Result<(), Error>)
    ensures
        result == validate(bytes@),
{
    match decode(bytes) {
        Ok(reply) => expect_ack(&reply),
        Err(error) => Err(error),
    }
}

/// The host's end of the link to one device.
#[derive(Debug)]
pub struct Device {
    port: String,
    state: State,
}

/// A [`Device`] as a mathematical value.
pub struct DeviceView {
    /// The serial port that the device is on.
    pub port: Seq<char>,
    /// Where the exchange under way stands.
    pub state: State,
}

impl View for Device {
    type V = DeviceView;

    closed spec fn view(&self) -> DeviceView {
        DeviceView { port: self.port@, state: self.state }
    }
}

impl Device {
    /// The device on the given serial port, with no exchange under way.
    pub fn new(port: &str) -> (device: Device)
        ensures
            device@ == (DeviceView { port: port@, state: State::Idle }),
    {
        Device { port: String::from_str(port), state: State::Idle }
    }

    /// The serial port that the device is on.
    pub fn port(&self) -> (port: &str)
        ensures
            port@ == self@.port,
    {
        self.port.as_str()
    }

    /// The speed at which the serial line has to be opened.
    pub fn baud_rate(&self) -> (rate: u32)
        ensures
            rate == BAUD_RATE,
    {
        BAUD_RATE
    }

    /// The timeout with which the serial line has to be opened.
    pub fn timeout_ms(&self) -> (timeout: u64)
        ensures
            timeout == TIMEOUT_MS,
    {
        TIMEOUT_MS
    }

    /// Where the exchange under way stands.
    pub fn state(&self) -> (state: State)
        ensures
            state == self@.state,
    {
        self.state
    }

    /// Begins an exchange with the given command. An exchange that was
    /// under way is given up.
    pub fn send(&mut self, command: &Command) -> (action: Action)
        ensures
            final(self)@.port == old(self)@.port,
            (final(self)@.state, action@) == begin(old(self)@.state, command@),
            command@.fits(),
    {
        self.state = State::Sending;
        Action::Write(encode(command))
    }

    /// Begins a ping: a command without payload, to which the device has to
    /// answer with an acknowledgment.
    pub fn ping(&mut self) -> (action: Action)
        ensures
            final(self)@.port == old(self)@.port,
            (final(self)@.state, action@) == begin(
                old(self)@.state,
                Packet { opcode: PING, payload: Seq::empty() },
            ),
    {
        self.send(&Command::ping())
    }

    /// Begins a colour update: a command whose payload is the hue, the
    /// saturation and the value, in that order, and to which the device has
    /// to answer with an acknowledgment.
    pub fn update_color(&mut self, color: &Color) -> (action: Action)
        ensures
            final(self)@.port == old(self)@.port,
            (final(self)@.state, action@) == begin(
                old(self)@.state,
                Packet { opcode: UPDATE_COLOR, payload: color.channels() },
            ),
    {
        self.send(&Command::update_color(color))
    }

    /// Takes in what the serial line did and says what to do next.
    pub fn handle(&mut self, event: Event) -> (action: Action)
        ensures
            final(self)@.port == old(self)@.port,
            (final(self)@.state, action@) == step(old(self)@.state, event@),
    {
        match (self.state, event) {
            (State::Sending, Event::Written) => {
                self.state = State::AwaitingHeader;
                Action::Read(HEADER_LEN)
            },
            (State::AwaitingHeader, Event::Received(header)) => {
                if header.len() == HEADER_LEN {
                    let length: u8 = header[1];
                    self.state = State::AwaitingBody { opcode: header[0], length };
                    Action::Read(length as usize + TRAILER_LEN)
                } else {
                    self.finish(Err(Error::IoError))
                }
            },
            (State::AwaitingBody { opcode, length }, Event::Received(rest)) => {
                if rest.len() == length as usize + TRAILER_LEN {
                    let mut bytes: Vec<u8> = Vec::new();
                    bytes.push(opcode);
                    bytes.push(length);
                    let mut i: usize = 0;
                    while i < rest.len()
                        invariant
                            i <= rest@.len(),
                            bytes@ == seq![opcode, length] + rest@.take(i as int),
                        decreases rest@.len() - i,
                    {
                        bytes.push(rest[i]);
                        assert(bytes@ =~= seq![opcode, length] + rest@.take(i + 1));
                        i += 1;
                    }
                    assert(rest@.take(i as int) =~= rest@);
                    self.finish(validate_reply(bytes.as_slice()))
                } else {
                    self.finish(Err(Error::IoError))
                }
            },
            (State::AwaitingHeader, Event::TimedOut) => self.finish(Err(Error::TimeoutError)),
            (State::AwaitingBody { .. }, Event::TimedOut) => self.finish(
                Err(Error::TimeoutError),
            ),
            _ => self.finish(Err(Error::IoError)),
        }
    }

    fn finish(&mut self, result: Result<(), Error>) -> (action: Action)
        ensures
            final(self)@.port == old(self)@.port,
            (final(self)@.state, action@) == finish(result),
    {
        self.state = State::Idle;
        Action::Finish(result)
    }
}

/// An exchange ends where it has a result, and leaves the host's end idle:
/// as it was before the first one.
pub proof fn lemma_finished_is_idle(state: State, event: EventView)
    ensures
        step(state, event).1 is Finish <==> step(state, event).0 == State::Idle,
{
}

/// A read that runs out of time ends the exchange with
/// [`Error::TimeoutError`], in whichever portion of the reply it was.
pub proof fn lemma_timeout_ends_exchange(state: State)
    requires
        state is AwaitingHeader || state is AwaitingBody,
    ensures
        step(state, EventView::TimedOut) == finish(Err(Error::TimeoutError)),
{
}

/// Nothing of an earlier call is there for the next: an exchange goes the
/// same way from every state, and leaves the host's end idle.
pub proof fn lemma_exchange_is_independent(state: State, command: Packet, incoming: Seq<u8>)
    ensures
        exchange(state, command, incoming) == exchange(State::Idle, command, incoming),
        exchange(state, command, incoming).state == State::Idle,
{
}

/// A device that answers with the frame of a reply is taken at its opcode,
/// whatever the command was and whatever payload the reply has. The frame
/// is read whole, and nothing behind it is touched.
pub proof fn lemma_reply_is_validated(
    state: State,
    command: Packet,
    reply: Packet,
    behind: Seq<u8>,
)
    requires
        reply.fits(),
    ensures
        exchange(state, command, frame(reply) + behind).result == acknowledges(reply),
        exchange(state, command, frame(reply) + behind).unread == behind,
{
    let incoming = frame(reply) + behind;
    let header = incoming.take(HEADER_LEN as int);
    let rest = incoming.skip(HEADER_LEN as int);
    let count = reply.payload.len() + TRAILER_LEN;
    lemma_frame_parses(reply);
    assert(header[1] == reply.payload.len());
    assert(seq![header[0], header[1]] + rest.take(count as int) =~= frame(reply));
    assert(rest.skip(count as int) =~= behind);
}

/// A colour update puts hue, saturation and value on the line, in that
/// order and under the opcode of the update, and succeeds if and only if
/// the device answers with an acknowledgment.
pub proof fn lemma_update_color_exchange(state: State, color: Color, reply: Packet)
    requires
        reply.fits(),
    ensures
        ({
            let command = Packet { opcode: UPDATE_COLOR, payload: color.channels() };
            &&& begin(state, command).1 == ActionView::Write(frame(command))
            &&& parse(frame(command)) == Some(command)
            &&& command.payload == seq![color.hue, color.sat, color.val]
            &&& exchange(state, command, frame(reply)).result is Ok <==> reply.opcode == ACK
        }),
{
    let command = Packet { opcode: UPDATE_COLOR, payload: color.channels() };
    lemma_frame_parses(command);
    lemma_reply_is_validated(state, command, reply, Seq::empty());
    assert(frame(reply) + Seq::<u8>::empty() =~= frame(reply));
}

/// A reply with any opcode but that of the acknowledgment makes the
/// exchange fail with [`Error::UnexpectedReply`]: it is never taken for a
/// success, and never for a fault of the line.
pub proof fn lemma_other_reply_is_unexpected(state: State, command: Packet, reply: Packet)
    requires
        reply.fits(),
        reply.opcode != ACK,
    ensures
        exchange(state, command, frame(reply)).result == Err::<(), Error>(
            Error::UnexpectedReply,
        ),
{
    lemma_reply_is_validated(state, command, reply, Seq::empty());
    assert(frame(reply) + Seq::<u8>::empty() =~= frame(reply));
}

/// A device that stays silent, or stops before its reply is whole, makes
/// the exchange fail with [`Error::TimeoutError`], whatever the command.
pub proof fn lemma_silence_times_out(state: State, command: Packet, incoming: Seq<u8>)
    requires
        incoming.len() < HEADER_LEN || incoming.len() < HEADER_LEN + incoming[1] + TRAILER_LEN,
    ensures
        exchange(state, command, incoming).result == Err::<(), Error>(Error::TimeoutError),
{
}

/// A ping and a colour update, one after the other, both succeed where the
/// device acknowledges both: the second starts from the state that the
/// first one left, and reads on where the first one stopped.
pub proof fn lemma_ping_then_update_color(color: Color, first: Packet, second: Packet)
    requires
        first.fits(),
        first.opcode == ACK,
        second.fits(),
        second.opcode == ACK,
    ensures
        ({
            let ping = exchange(
                State::Idle,
                Packet { opcode: PING, payload: Seq::empty() },
                frame(first) + frame(second),
            );
            let update = exchange(
                ping.state,
                Packet { opcode: UPDATE_COLOR, payload: color.channels() },
                ping.unread,
            );
            &&& ping.result is Ok
            &&& update.result is Ok
            &&& update.state == State::Idle
            &&& update.unread == Seq::<u8>::empty()
        }),
{
    let ping = Packet { opcode: PING, payload: Seq::empty() };
    let update = Packet { opcode: UPDATE_COLOR, payload: color.channels() };
    lemma_reply_is_validated(State::Idle, ping, first, frame(second));
    lemma_reply_is_validated(State::Idle, update, second, Seq::empty());
    assert(frame(second) + Seq::<u8>::empty() =~= frame(second));
}

} // verus!
