//! Incremental de-framing of a byte stream into tagged, length-delimited frames.
//!
//! Wire format of one frame (length in network byte order):
//!
//! ```text
//! byte 0    : delimiter, always 0x00
//! byte 1    : tag
//! bytes 2-3 : payload length, big-endian u16
//! bytes 4.. : payload, exactly `length` bytes
//! ```
pub mod connection;
pub mod error;
pub mod frame;
pub mod stream;
