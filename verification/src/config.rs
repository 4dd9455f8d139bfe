//! The fixed parameters of the link.

use vstd::prelude::*;

verus! {

/// The device that both activities open.
pub const DEVICE_PATH: &'static str = "/dev/ttyUSB0";

/// Symbols per second on the line.
pub const BAUD_RATE: u32 = 9600;

/// How long a read waits for data before it gives up, in milliseconds.
pub const READ_TIMEOUT_MS: u64 = 10;

/// The size of the reader's buffer, in bytes. No read delivers more.
pub const READ_BUFFER_LEN: usize = 1024;

/// How a port handle is to be opened.
///
/// The reader and the writer each open a handle of their own, and both use
/// the same settings.
#[derive(Clone, Copy, Debug, PartialEq, Eq)]
pub struct LinkSettings {
    pub device: &'static str,
    pub baud_rate: u32,
    pub read_timeout_ms: u64,
}

impl LinkSettings {
    /// The settings of this link: the fixed device at 9600 baud with a read
    /// timeout of 10 ms.
    pub fn standard() -> (settings: Self)
        ensures
            settings.device@ == DEVICE_PATH@,
            settings.baud_rate == 9600,
            settings.read_timeout_ms == 10,
    {
        LinkSettings {
            device: DEVICE_PATH,
            baud_rate: BAUD_RATE,
            read_timeout_ms: READ_TIMEOUT_MS,
        }
    }
}

/// A fresh read buffer: `READ_BUFFER_LEN` bytes, all zero.
pub fn read_buffer() -> (buffer: Vec<u8>)
    ensures
        buffer@.len() == 1024,
        forall|i: int| 0 <= i < buffer@.len() ==> buffer@[i] == 0,
{
    vec![0u8; READ_BUFFER_LEN]
}

} // verus!
