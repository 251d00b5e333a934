//! What can go wrong when packets are encoded, decoded or requested.

use crate::kind::PacketKind;
use vstd::prelude::*;

verus! {

/// What is wrong with a text that should be base64.
#[derive(Clone, Copy, Debug, PartialEq, Eq, Structural)]
pub enum Base64ErrorKind {
    /// The length is not a whole number of groups.
    Length,
    /// A character is not part of the alphabet.
    Symbol,
    /// Bits that no byte takes are set.
    Trailing,
    /// The padding has a length that no group ends in.
    Padding,
}

/// Why a text is not base64, and at which of its bytes.
#[derive(Clone, Copy, Debug, PartialEq, Eq, Structural)]
pub struct Base64Error {
    pub position: usize,
    pub kind: Base64ErrorKind,
}

/// Why a text is not a number.
#[derive(Clone, Copy, Debug, PartialEq, Eq, Structural)]
pub enum NumberError {
    /// There is no text.
    Empty,
    /// A character is not a digit, or there is none behind the sign.
    InvalidDigit,
    /// The number is too large.
    TooLarge,
}

/// Every failure that the library reports.
#[derive(Clone, Debug, PartialEq, Eq)]
pub enum Error {
    /// The packet ends before the field that is read.
    Eof,
    /// A byte that the layout fixes is missing or has another value.
    UnexpectedByte { expected: u8, got: Option<u8> },
    /// The first byte behind the last field that is not zero.
    NonZeroPadding(u8),
    /// A codec was handed a value of another type than its own.
    WrongType { kind: PacketKind },
    /// The product has no codec for values of this type.
    NoCodec { sku: String, kind: PacketKind },
    /// Values of this type come from the device and are never sent to it.
    DeviceNotification(PacketKind),
    /// Scene commands are only sent.
    SceneDecodeNotImplemented,
    /// A power reading is not twenty bytes long.
    H5086Length,
    /// The first bytes are not those of a power reading.
    NotH5086PowerReading,
    /// The last byte of a power reading is not the checksum of the others.
    H5086Checksum,
    /// A fan packet is not twenty bytes long.
    H7105Length,
    /// The first bytes are not those of a fan speed notification.
    NotFanSpeedNotification,
    /// The first bytes are not those of a fan mode command.
    NotFanModeCommand,
    /// The first bytes are not those of a fan mode notification.
    NotFanModeNotification,
    /// The first bytes are not those of an oscillation command.
    NotOscillationCommand,
    /// The first bytes are not those of an oscillation notification.
    NotOscillationNotification,
    /// The last byte of a fan packet is not the checksum of the others.
    Checksum,
    /// The speed is not one of the twelve steps.
    InvalidFanSpeed,
    /// The oscillation switch is neither off nor on.
    InvalidOscillationValue,
    /// No fan mode has this code.
    UnknownFanMode(u8),
    /// No fan mode has this name.
    UnsupportedFanMode(String),
    /// The oscillation speed is neither low nor high.
    OscillationSpeed,
    /// The symmetry flag is neither off nor on.
    SymmetryFlag,
    /// An end of the oscillation range is not a whole number of degrees.
    NotWholeDegrees,
    /// An end of the oscillation range does not fit in a signed byte.
    DegreesOverflow,
    /// An end of the oscillation range is further than 75 degrees from the centre.
    DegreesOutOfRange,
    /// The oscillation range does not start below its end.
    StartNotBelowEnd,
    /// The parameter of a scene is not base64.
    Base64(Base64Error),
    /// A power request is neither `ON` nor `OFF`.
    InvalidPower(String),
    /// A speed request is not a decimal number that fits in a byte.
    InvalidSpeed(NumberError),
    /// A preset request does not name the automatic preset.
    UnsupportedPreset(String),
}

} // verus!
