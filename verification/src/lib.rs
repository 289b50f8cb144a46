//! A client-side encoder for the Wiiload protocol: a one-way TCP file push
//! used to hand an executable payload to a homebrew-capable console.
//!
//! This crate builds the exact byte stream that one transfer writes to the
//! wire: a fixed fifteen-byte header, the (optionally DEFLATE-compressed)
//! payload, and the null-terminated filename. Opening the TCP connection and
//! writing the bytes is left to the caller; everything the protocol pins down
//! about the bytes themselves is stated and proved here.

use vstd::prelude::*;

pub mod deflate;
pub mod wire;

pub use crate::wire::encode_compressed;
pub use crate::wire::encode_plain;
pub use crate::wire::encode_transfer;
pub use crate::wire::normalize_filename;

verus! {

/// The fixed TCP port a Wiiload receiver listens on.
pub const WIILOAD_PORT: u16 = 4299;

/// One transfer's failure, fatal to that transfer; nothing is retried.
#[derive(Debug)]
pub enum WiiloadError {
    /// An underlying connect/read/write failure, carried as its message.
    Io(String),
    /// The target address text did not parse as an IPv4 address.
    Net(String),
    /// The peer did not answer within the fixed timeout.
    Timeout,
    /// A size field would not hold its value: the null-terminated filename
    /// is longer than 255 bytes, or a payload is longer than `u32::MAX`.
    TryFromIntError,
}

} // verus!
