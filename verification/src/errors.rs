//! The errors of message handling and of bus transactions.
use crate::headers::CcTalkHeader;
use crate::text::{decimal, hex_upper, push_decimal, push_hex_upper};
use vstd::prelude::*;

verus! {

/// Why a message or a frame is not a valid ccTalk message.
#[derive(Debug, Clone, Copy, PartialEq, Eq, Structural, PartialOrd)]
pub enum CctalkMessageError {
    /// A length that does not match: the first is the length found, the second the
    /// length it should be.
    IncorrectDataLen(u8, u8),
    /// A checksum that does not match: the first is the checksum found, the second
    /// the one the message calls for.
    IncorrectChksum(u8, u8),
    /// A frame shorter than the five framing bytes; holds its length.
    MessageTooShort(u8),
    /// A byte that did not fit in a full buffer.
    HVecFailedToPush(u8),
    /// No checksum is present.
    NoChkSum,
}

/// Why a transaction on the bus failed.
#[derive(Debug, Clone, Copy, PartialEq, Eq, Structural)]
pub enum CctalkTransmissionError {
    FailedToTxData,
    FailedToReciveEcho,
    FailedToFillTxBuffer,
    FailedToFetchHeader,
    FailedToRxDataAndChksum,
    FailedToConvertToMessage,
    FailedToRxData,
    /// The device named an equipment category this library does not know.
    CctalkDeviceTypeUnknown,
    /// The device answered with a header other than `Ack`; holds that header.
    CctalkFailedToAck(CcTalkHeader),
    /// The reply's checksum is wrong.
    RxDataMalformedChksum,
    /// A read was asked for fewer bytes than a frame has.
    RxDataMalformedLength,
    /// The serial port reported an error while reading.
    CctalkSerialReadError,
    /// The serial port reported an error while writing.
    CctalkSerialWriteError,
    /// The bytes received are not a valid message.
    CctalkMessageError(CctalkMessageError),
}

/// The text describing a message error.
pub open spec fn message_error_text(e: CctalkMessageError) -> Seq<char> {
    match e {
        CctalkMessageError::IncorrectDataLen(a, b) => "Wrong data length: "@ + decimal(a as nat)
            + ", should be: "@ + decimal(b as nat),
        CctalkMessageError::IncorrectChksum(a, b) => "Wrong chksum: "@ + decimal(a as nat)
            + ", should be: "@ + decimal(b as nat),
        CctalkMessageError::MessageTooShort(a) => "CCtalk packet too short: "@ + decimal(a as nat)
            + " bytes (min valid length: 5 bytes)"@,
        CctalkMessageError::HVecFailedToPush(a) => "Heapless vec is full, cannot push byte: 0x"@
            + hex_upper(a as nat),
        CctalkMessageError::NoChkSum => "Chksum not set!"@,
    }
}

impl CctalkMessageError {
    /// The text describing the error.
    pub fn message(&self) -> (r: String)
        ensures
            r@ == message_error_text(*self),
    {
        match self {
            CctalkMessageError::IncorrectDataLen(a, b) => {
                let mut s = String::from_str("Wrong data length: ");
                push_decimal(&mut s, *a);
                s.append(", should be: ");
                push_decimal(&mut s, *b);
                s
            },
            CctalkMessageError::IncorrectChksum(a, b) => {
                let mut s = String::from_str("Wrong chksum: ");
                push_decimal(&mut s, *a);
                s.append(", should be: ");
                push_decimal(&mut s, *b);
                s
            },
            CctalkMessageError::MessageTooShort(a) => {
                let mut s = String::from_str("CCtalk packet too short: ");
                push_decimal(&mut s, *a);
                s.append(" bytes (min valid length: 5 bytes)");
                s
            },
            CctalkMessageError::HVecFailedToPush(a) => {
                let mut s = String::from_str("Heapless vec is full, cannot push byte: 0x");
                push_hex_upper(&mut s, *a);
                s
            },
            CctalkMessageError::NoChkSum => String::from_str("Chksum not set!"),
        }
    }
}

/// The text describing a transaction error.
pub open spec fn transmission_error_text(e: CctalkTransmissionError) -> Seq<char> {
    match e {
        CctalkTransmissionError::FailedToTxData => "Failed to tx cctalk data"@,
        CctalkTransmissionError::FailedToReciveEcho => "failed to receive tx echo"@,
        CctalkTransmissionError::FailedToFillTxBuffer => "failed to fill tx_buffer "@,
        CctalkTransmissionError::FailedToFetchHeader => "failed to fetch [dest,len,src,header]"@,
        CctalkTransmissionError::FailedToRxDataAndChksum => "failed to rx data and chksum"@,
        CctalkTransmissionError::FailedToConvertToMessage => "failed to convert rx data to msg"@,
        CctalkTransmissionError::FailedToRxData => "Rx data err"@,
        CctalkTransmissionError::CctalkDeviceTypeUnknown => "Device type unknown"@,
        CctalkTransmissionError::CctalkFailedToAck(_) => "Device did not acknowledge"@,
        CctalkTransmissionError::RxDataMalformedChksum => "Rx data has a wrong chksum"@,
        CctalkTransmissionError::RxDataMalformedLength => "Rx data length too short"@,
        CctalkTransmissionError::CctalkSerialReadError => "Serial read error"@,
        CctalkTransmissionError::CctalkSerialWriteError => "Serial write error"@,
        CctalkTransmissionError::CctalkMessageError(m) => "Message error: "@ + message_error_text(
            m,
        ),
    }
}

impl CctalkTransmissionError {
    /// The text describing the error.
    pub fn message(&self) -> (r: String)
        ensures
            r@ == transmission_error_text(*self),
    {
        match self {
            CctalkTransmissionError::FailedToTxData => String::from_str("Failed to tx cctalk data"),
            CctalkTransmissionError::FailedToReciveEcho => String::from_str(
                "failed to receive tx echo",
            ),
            CctalkTransmissionError::FailedToFillTxBuffer => String::from_str(
                "failed to fill tx_buffer ",
            ),
            CctalkTransmissionError::FailedToFetchHeader => String::from_str(
                "failed to fetch [dest,len,src,header]",
            ),
            CctalkTransmissionError::FailedToRxDataAndChksum => String::from_str(
                "failed to rx data and chksum",
            ),
            CctalkTransmissionError::FailedToConvertToMessage => String::from_str(
                "failed to convert rx data to msg",
            ),
            CctalkTransmissionError::FailedToRxData => String::from_str("Rx data err"),
            CctalkTransmissionError::CctalkDeviceTypeUnknown => String::from_str(
                "Device type unknown",
            ),
            CctalkTransmissionError::CctalkFailedToAck(_) => String::from_str(
                "Device did not acknowledge",
            ),
            CctalkTransmissionError::RxDataMalformedChksum => String::from_str(
                "Rx data has a wrong chksum",
            ),
            CctalkTransmissionError::RxDataMalformedLength => String::from_str(
                "Rx data length too short",
            ),
            CctalkTransmissionError::CctalkSerialReadError => String::from_str("Serial read error"),
            CctalkTransmissionError::CctalkSerialWriteError => String::from_str(
                "Serial write error",
            ),
            CctalkTransmissionError::CctalkMessageError(m) => {
                let mut s = String::from_str("Message error: ");
                let inner = m.message();
                s.append(inner.as_str());
                s
            },
        }
    }
}

} // verus!
