use vstd::prelude::*;

verus! {

/// Errors of the driver core. Transport-level failures (serial and other
/// I/O errors) are added by the embedding layer, which owns the transport.
#[derive(Debug, Clone, PartialEq)]
pub enum YDLidarError {
    /// A command response header did not have the expected byte length.
    InvalidHeaderLength(usize),
    /// A command response header did not start with the expected two magic
    /// bytes; carries the observed bytes rendered as hexadecimal text.
    InvalidMagicNumber(String),
    /// A command response header declared an unexpected payload length
    /// (expected, actual).
    InvalidResponseLength(usize, usize),
    /// A command response header carried an unexpected type code
    /// (expected, actual).
    InvalidTypeCode(usize, usize),
    /// The device reported a health fault; carries the raw status code.
    DeviceHealthError(usize),
    /// The requested model identifier is not one this driver supports.
    UnsupportedModel(u8),
    /// A packet's embedded checksum differs from the recomputed one
    /// (expected, calculated).
    ChecksumMismatch(u16, u16),
    /// A bounded retry loop around a transport read ran out of trials.
    TimeoutError(),
}

} // verus!
