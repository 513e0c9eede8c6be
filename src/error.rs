//! Failures of an encode, each tagged with the pass it ended.

use rav1e::prelude::{EncoderStatus, InvalidConfig};
use vstd::prelude::*;

use crate::config::PixelKind;

verus! {

/// Why an encode failed, and in which pass.
#[derive(Clone, Copy, Debug, PartialEq, Eq)]
pub enum EncodeError {
    /// The plane stream ran out before the frame's visible region was filled:
    /// the declared size does not match the pixel buffer.
    TooFewPixels(PixelKind),
    /// The encoder rejected the settings of the pass, for the reason given.
    InvalidConfig(PixelKind, InvalidConfig),
    /// The encoder refused the frame of the pass.
    SendFrame(PixelKind, EncoderStatus),
    /// The encoder gave no packet for the pass.
    ReceivePacket(PixelKind, EncoderStatus),
}

impl EncodeError {
    /// The pass that failed.
    pub open spec fn pass(self) -> PixelKind {
        match self {
            EncodeError::TooFewPixels(k) => k,
            EncodeError::InvalidConfig(k, _) => k,
            EncodeError::SendFrame(k, _) => k,
            EncodeError::ReceivePacket(k, _) => k,
        }
    }

    /// The pass that failed.
    pub fn kind(&self) -> (r: PixelKind)
        ensures
            r == self.pass(),
    {
        match self {
            EncodeError::TooFewPixels(k) => *k,
            EncodeError::InvalidConfig(k, _) => *k,
            EncodeError::SendFrame(k, _) => *k,
            EncodeError::ReceivePacket(k, _) => *k,
        }
    }
}

} // verus!
