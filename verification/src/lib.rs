//! Host side of a serial link to a colour-controlled device.
//!
//! The crate decides and the caller performs: every function here works on
//! plain values, and the caller owns the serial line and the window.
//!
//! - [`command`] and [`frame`]: what is said, and how it travels.
//! - [`device`]: one exchange of command and reply at a time. The bytes to
//!   write and the number of bytes to read are handed out as [`Action`]s,
//!   and what the line did comes back as [`Event`]s, until the exchange
//!   finishes with a typed result.
//! - [`panel`]: the state behind the control panel, which turns what the
//!   user does into calls on the device.

pub mod color;
pub mod command;
pub mod device;
pub mod error;
pub mod frame;
pub mod panel;

pub use color::Color;
pub use command::{Command, Reply};
pub use device::{Action, Device, Event, State};
pub use error::Error;
pub use panel::{Effect, Model, Msg};
