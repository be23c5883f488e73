//! The 16-bit CRC that ccTalk's CRC-checked messages carry.
use vstd::prelude::*;

verus! {

/// The CRC-16/XMODEM (polynomial 0x1021, initial value 0, no reflection, no final
/// xor) of a byte sequence, as `crc16::State::<crc16::XMODEM>::calculate` computes it.
pub uninterp spec fn xmodem_crc(bytes: Seq<u8>) -> u16;

/// `crc16::State::<crc16::XMODEM>::calculate`: the CRC of the bytes, a function of the
/// bytes alone.
#[verifier::external_body]
pub(crate) fn crc16_xmodem(bytes: &[u8]) -> (r: u16)
    ensures
        r == xmodem_crc(bytes@),
{
    crc16::State::<crc16::XMODEM>::calculate(bytes)
}

} // verus!
