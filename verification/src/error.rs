//! What can go wrong between the host and the device.

use vstd::prelude::*;

verus! {

/// The ways in which a call can fail, one variant for each cause.
#[derive(Clone, Copy, Debug, PartialEq, Eq, Structural)]
pub enum Error {
    /// The serial line could not be opened: the port does not exist, is in
    /// use, or refused the settings. Nothing is connected.
    OpenError,
    /// A read or a write on the open line failed.
    IoError,
    /// No reply came within the time allowed for it. The line is as good
    /// as before.
    TimeoutError,
    /// The bytes received are not a frame.
    MalformedFrame,
    /// The reply is a frame, but not the one that the command waits for.
    /// The line itself is in order.
    UnexpectedReply,
}

} // verus!
