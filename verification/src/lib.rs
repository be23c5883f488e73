//! A ccTalk (coin, note and hopper bus) protocol library.
use vstd::prelude::*;

pub mod crc;
pub mod device;
pub mod errors;
pub mod headers;
pub mod hvec;
pub mod interface;
pub mod message;
pub mod text;

verus! {

/// The bus address of the host.
pub const MASTER_ADDR: u8 = 0x01;

/// How long a transaction waits for a reply when the caller names no timeout.
pub const DEFAULT_TIMEOUT_MS: u32 = 40;

} // verus!
