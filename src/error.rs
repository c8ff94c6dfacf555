//! Error categories of the framing engine.
use vstd::prelude::*;

use crate::frame::NetFrameError;

verus! {

/// Failure categories of the framing engine.
///
/// Only `FramingDelimiterMismatch`, `FramingTooLittleData`, `Unknown`,
/// `StreamMessageCountZero`, `StreamFailure` and `StreamBytesFull` are raised by
/// the engine; the others are kept for transports built around it.
#[derive(Debug, Clone, Copy, Default, PartialEq, Eq, Structural)]
pub enum NetStreamErrorType {
    Generic,
    #[default]
    Unknown,
    /// The underlying stream could not be read.
    ReadFailure,
    /// The underlying stream could not be written.
    WriteFailure,
    StreamBytesEmpty,
    /// The pending buffer cannot take the bytes offered.
    StreamBytesFull,
    StreamClosed,
    StreamOutputClosed,
    StreamMessageTooLong,
    /// No decoded frame is waiting; write more bytes first.
    StreamMessageCountZero,
    /// The byte stream is out of step with frame boundaries: a header did not
    /// start with the delimiter. The caller decides whether to drop or reset.
    FramingDelimiterMismatch,
    /// Too few bytes to read a header.
    FramingTooLittleData,
    /// The engine is in its terminal state and accepts nothing more.
    StreamFailure,
}

/// An error of the framing engine.
#[derive(Debug, Clone, Copy, Default, PartialEq, Eq, Structural)]
pub struct NetStreamErr {
    pub category: NetStreamErrorType,
}

/// The engine error that a header error becomes.
pub open spec fn stream_error_of(e: NetFrameError) -> NetStreamErr {
    match e {
        NetFrameError::DelimiterMismatch => NetStreamErr {
            category: NetStreamErrorType::FramingDelimiterMismatch,
        },
        NetFrameError::TooLittleData => NetStreamErr {
            category: NetStreamErrorType::FramingTooLittleData,
        },
        _ => NetStreamErr { category: NetStreamErrorType::Unknown },
    }
}

impl NetStreamErr {
    pub fn new(category: NetStreamErrorType) -> (r: Self)
        ensures
            r.category == category,
    {
        Self { category }
    }
}

impl From<NetFrameError> for NetStreamErr {
    fn from(e: NetFrameError) -> (r: Self) {
        match e {
            NetFrameError::DelimiterMismatch => Self {
                category: NetStreamErrorType::FramingDelimiterMismatch,
            },
            NetFrameError::TooLittleData => Self {
                category: NetStreamErrorType::FramingTooLittleData,
            },
            _ => Self { category: NetStreamErrorType::Unknown },
        }
    }
}

impl vstd::std_specs::convert::FromSpecImpl<NetFrameError> for NetStreamErr {
    open spec fn obeys_from_spec() -> bool {
        true
    }

    open spec fn from_spec(v: NetFrameError) -> NetStreamErr {
        stream_error_of(v)
    }
}

} // verus!
