//! The colour that the device shows.

use vstd::prelude::*;

verus! {

/// A colour as hue, saturation and value, one byte each.
///
/// The three channels are independent: every combination is a colour.
#[derive(Clone, Copy, Debug, PartialEq, Eq, Structural)]
pub struct Color {
    pub hue: u8,
    pub sat: u8,
    pub val: u8,
}

impl Color {
    /// The bytes that carry this colour to the device: hue, saturation,
    /// value, in that order.
    pub open spec fn channels(self) -> Seq<u8> {
        seq![self.hue, self.sat, self.val]
    }

    /// Builds the payload of a colour update.
    pub fn payload(&self) -> (bytes: Vec<u8>)
        ensures
            bytes@ == self.channels(),
    {
        let mut bytes: Vec<u8> = Vec::new();
        bytes.push(self.hue);
        bytes.push(self.sat);
        bytes.push(self.val);
        assert(bytes@ =~= self.channels());
        bytes
    }
}

} // verus!
