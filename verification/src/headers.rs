//! ccTalk command headers: the fourth byte of every frame.
use crate::text::{decimal, push_decimal};
use vstd::prelude::*;

verus! {

/// A ccTalk header byte, with a name for the headers this library uses.
///
/// Every byte value has exactly one canonical header: the named variant whose
/// code it is, or `Other` holding it.
#[derive(Debug, Clone, Copy, PartialEq, Eq, Structural)]
pub enum CcTalkHeader {
    /// The reply header: a slave's answer to any command. (header 0)
    Ack,
    /// Resets the device. (header 1)
    ResetDevice,
    /// Asks for the ccTalk revision the device implements. (header 4)
    RequestCommsRevision,
    /// Negative acknowledge. (header 5)
    Nak,
    /// The device is busy. (header 6)
    Busy,
    /// Asks a hopper to pay out coins. (header 167)
    DispenseHopperCoins,
    /// Uploads calibration data. (header 200)
    UploadCalibrationData,
    /// Reads the buffered credit or error codes. (header 229)
    ReadBufferedCreditOrErrorCodes,
    /// Changes the inhibit status. (header 231)
    ModifyInhibitStatus,
    /// Asks the device to check itself. (header 232)
    PerformSelfCheck,
    /// Asks for the software revision. (header 241)
    RequestSoftwareRevision,
    /// Asks for the serial number. (header 242)
    RequestSerialNumber,
    /// Asks for the product code. (header 244)
    RequestProductCode,
    /// Asks for the equipment category. (header 245)
    RequestEquipmentCategory,
    /// Asks for the manufacturer's name. (header 246)
    RequestManufacturerId,
    /// Asks for the device status. (header 248)
    RequestStatus,
    /// Asks every device on the bus to answer with its address. (header 253)
    AddressPoll,
    /// Checks that the device answers. (header 254)
    SimplePoll,
    /// Any header byte without a name here.
    Other(u8),
}

/// The byte that stands for a header on the wire.
pub open spec fn header_code(h: CcTalkHeader) -> u8 {
    match h {
        CcTalkHeader::Ack => 0,
        CcTalkHeader::ResetDevice => 1,
        CcTalkHeader::RequestCommsRevision => 4,
        CcTalkHeader::Nak => 5,
        CcTalkHeader::Busy => 6,
        CcTalkHeader::DispenseHopperCoins => 167,
        CcTalkHeader::UploadCalibrationData => 200,
        CcTalkHeader::ReadBufferedCreditOrErrorCodes => 229,
        CcTalkHeader::ModifyInhibitStatus => 231,
        CcTalkHeader::PerformSelfCheck => 232,
        CcTalkHeader::RequestSoftwareRevision => 241,
        CcTalkHeader::RequestSerialNumber => 242,
        CcTalkHeader::RequestProductCode => 244,
        CcTalkHeader::RequestEquipmentCategory => 245,
        CcTalkHeader::RequestManufacturerId => 246,
        CcTalkHeader::RequestStatus => 248,
        CcTalkHeader::AddressPoll => 253,
        CcTalkHeader::SimplePoll => 254,
        CcTalkHeader::Other(b) => b,
    }
}

/// The canonical header of a byte.
pub open spec fn header_of_code(b: u8) -> CcTalkHeader {
    if b == 0 {
        CcTalkHeader::Ack
    } else if b == 1 {
        CcTalkHeader::ResetDevice
    } else if b == 4 {
        CcTalkHeader::RequestCommsRevision
    } else if b == 5 {
        CcTalkHeader::Nak
    } else if b == 6 {
        CcTalkHeader::Busy
    } else if b == 167 {
        CcTalkHeader::DispenseHopperCoins
    } else if b == 200 {
        CcTalkHeader::UploadCalibrationData
    } else if b == 229 {
        CcTalkHeader::ReadBufferedCreditOrErrorCodes
    } else if b == 231 {
        CcTalkHeader::ModifyInhibitStatus
    } else if b == 232 {
        CcTalkHeader::PerformSelfCheck
    } else if b == 241 {
        CcTalkHeader::RequestSoftwareRevision
    } else if b == 242 {
        CcTalkHeader::RequestSerialNumber
    } else if b == 244 {
        CcTalkHeader::RequestProductCode
    } else if b == 245 {
        CcTalkHeader::RequestEquipmentCategory
    } else if b == 246 {
        CcTalkHeader::RequestManufacturerId
    } else if b == 248 {
        CcTalkHeader::RequestStatus
    } else if b == 253 {
        CcTalkHeader::AddressPoll
    } else if b == 254 {
        CcTalkHeader::SimplePoll
    } else {
        CcTalkHeader::Other(b)
    }
}

/// A header is canonical when it is the header its own code decodes to: a named
/// variant, or `Other` with a byte that has no name.
pub open spec fn is_canonical(h: CcTalkHeader) -> bool {
    header_of_code(header_code(h)) == h
}

/// The name of a header: the variant's name, or `Other(code)`.
pub open spec fn header_name(h: CcTalkHeader) -> Seq<char> {
    match h {
        CcTalkHeader::Ack => "Ack"@,
        CcTalkHeader::ResetDevice => "ResetDevice"@,
        CcTalkHeader::RequestCommsRevision => "RequestCommsRevision"@,
        CcTalkHeader::Nak => "Nak"@,
        CcTalkHeader::Busy => "Busy"@,
        CcTalkHeader::DispenseHopperCoins => "DispenseHopperCoins"@,
        CcTalkHeader::UploadCalibrationData => "UploadCalibrationData"@,
        CcTalkHeader::ReadBufferedCreditOrErrorCodes => "ReadBufferedCreditOrErrorCodes"@,
        CcTalkHeader::ModifyInhibitStatus => "ModifyInhibitStatus"@,
        CcTalkHeader::PerformSelfCheck => "PerformSelfCheck"@,
        CcTalkHeader::RequestSoftwareRevision => "RequestSoftwareRevision"@,
        CcTalkHeader::RequestSerialNumber => "RequestSerialNumber"@,
        CcTalkHeader::RequestProductCode => "RequestProductCode"@,
        CcTalkHeader::RequestEquipmentCategory => "RequestEquipmentCategory"@,
        CcTalkHeader::RequestManufacturerId => "RequestManufacturerId"@,
        CcTalkHeader::RequestStatus => "RequestStatus"@,
        CcTalkHeader::AddressPoll => "AddressPoll"@,
        CcTalkHeader::SimplePoll => "SimplePoll"@,
        CcTalkHeader::Other(b) => "Other("@ + decimal(b as nat) + ")"@,
    }
}

impl CcTalkHeader {
    /// The name of the header: the variant's name, or `Other(code)`.
    pub fn name(&self) -> (r: String)
        ensures
            r@ == header_name(*self),
    {
        match self {
            CcTalkHeader::Ack => String::from_str("Ack"),
            CcTalkHeader::ResetDevice => String::from_str("ResetDevice"),
            CcTalkHeader::RequestCommsRevision => String::from_str("RequestCommsRevision"),
            CcTalkHeader::Nak => String::from_str("Nak"),
            CcTalkHeader::Busy => String::from_str("Busy"),
            CcTalkHeader::DispenseHopperCoins => String::from_str("DispenseHopperCoins"),
            CcTalkHeader::UploadCalibrationData => String::from_str("UploadCalibrationData"),
            CcTalkHeader::ReadBufferedCreditOrErrorCodes => String::from_str("ReadBufferedCreditOrErrorCodes"),
            CcTalkHeader::ModifyInhibitStatus => String::from_str("ModifyInhibitStatus"),
            CcTalkHeader::PerformSelfCheck => String::from_str("PerformSelfCheck"),
            CcTalkHeader::RequestSoftwareRevision => String::from_str("RequestSoftwareRevision"),
            CcTalkHeader::RequestSerialNumber => String::from_str("RequestSerialNumber"),
            CcTalkHeader::RequestProductCode => String::from_str("RequestProductCode"),
            CcTalkHeader::RequestEquipmentCategory => String::from_str("RequestEquipmentCategory"),
            CcTalkHeader::RequestManufacturerId => String::from_str("RequestManufacturerId"),
            CcTalkHeader::RequestStatus => String::from_str("RequestStatus"),
            CcTalkHeader::AddressPoll => String::from_str("AddressPoll"),
            CcTalkHeader::SimplePoll => String::from_str("SimplePoll"),
            CcTalkHeader::Other(b) => {
                let mut s = String::from_str("Other(");
                push_decimal(&mut s, *b);
                s.append(")");
                s
            },
        }
    }

    /// The header byte.
    pub fn to_u8(&self) -> (r: u8)
        ensures
            r == header_code(*self),
    {
        match self {
            CcTalkHeader::Ack => 0,
            CcTalkHeader::ResetDevice => 1,
            CcTalkHeader::RequestCommsRevision => 4,
            CcTalkHeader::Nak => 5,
            CcTalkHeader::Busy => 6,
            CcTalkHeader::DispenseHopperCoins => 167,
            CcTalkHeader::UploadCalibrationData => 200,
            CcTalkHeader::ReadBufferedCreditOrErrorCodes => 229,
            CcTalkHeader::ModifyInhibitStatus => 231,
            CcTalkHeader::PerformSelfCheck => 232,
            CcTalkHeader::RequestSoftwareRevision => 241,
            CcTalkHeader::RequestSerialNumber => 242,
            CcTalkHeader::RequestProductCode => 244,
            CcTalkHeader::RequestEquipmentCategory => 245,
            CcTalkHeader::RequestManufacturerId => 246,
            CcTalkHeader::RequestStatus => 248,
            CcTalkHeader::AddressPoll => 253,
            CcTalkHeader::SimplePoll => 254,
            CcTalkHeader::Other(b) => *b,
        }
    }

    /// The canonical header of a byte.
    pub fn from_u8(b: u8) -> (r: CcTalkHeader)
        ensures
            r == header_of_code(b),
    {
        if b == 0 {
            CcTalkHeader::Ack
        } else if b == 1 {
            CcTalkHeader::ResetDevice
        } else if b == 4 {
            CcTalkHeader::RequestCommsRevision
        } else if b == 5 {
            CcTalkHeader::Nak
        } else if b == 6 {
            CcTalkHeader::Busy
        } else if b == 167 {
            CcTalkHeader::DispenseHopperCoins
        } else if b == 200 {
            CcTalkHeader::UploadCalibrationData
        } else if b == 229 {
            CcTalkHeader::ReadBufferedCreditOrErrorCodes
        } else if b == 231 {
            CcTalkHeader::ModifyInhibitStatus
        } else if b == 232 {
            CcTalkHeader::PerformSelfCheck
        } else if b == 241 {
            CcTalkHeader::RequestSoftwareRevision
        } else if b == 242 {
            CcTalkHeader::RequestSerialNumber
        } else if b == 244 {
            CcTalkHeader::RequestProductCode
        } else if b == 245 {
            CcTalkHeader::RequestEquipmentCategory
        } else if b == 246 {
            CcTalkHeader::RequestManufacturerId
        } else if b == 248 {
            CcTalkHeader::RequestStatus
        } else if b == 253 {
            CcTalkHeader::AddressPoll
        } else if b == 254 {
            CcTalkHeader::SimplePoll
        } else {
            CcTalkHeader::Other(b)
        }
    }
}

impl From<u8> for CcTalkHeader {
    fn from(b: u8) -> (r: CcTalkHeader) {
        CcTalkHeader::from_u8(b)
    }
}

impl vstd::std_specs::convert::FromSpecImpl<u8> for CcTalkHeader {
    open spec fn obeys_from_spec() -> bool {
        true
    }

    open spec fn from_spec(b: u8) -> CcTalkHeader {
        header_of_code(b)
    }
}

/// Decoding a byte and encoding the header gives the byte back, for every byte.
pub proof fn lemma_header_code_roundtrip(b: u8)
    ensures
        header_code(header_of_code(b)) == b,
        is_canonical(header_of_code(b)),
{
}

/// Encoding a canonical header and decoding the byte gives the header back; two
/// canonical headers with the same byte are the same header.
pub proof fn lemma_header_canonical_injective(h1: CcTalkHeader, h2: CcTalkHeader)
    requires
        is_canonical(h1),
        is_canonical(h2),
        header_code(h1) == header_code(h2),
    ensures
        h1 == h2,
{
}

} // verus!
