//! Devices on the bus: what kind they are, and the probe that asks them.
use crate::errors::CctalkTransmissionError;
use crate::headers::CcTalkHeader;
use crate::hvec::payload_as_slice;
use crate::message::{bytes_equal, CctalkMessage};
use crate::text::utf8_text;
use vstd::prelude::*;

verus! {

/// The kinds of device this library knows.
#[derive(Debug, Clone, Copy, PartialEq, Eq, Structural, PartialOrd)]
pub enum CctalkDeviceKind {
    /// A coin acceptor (addresses 2 and 11 to 17).
    Coinmech,
    /// A payout hopper (addresses 3 to 10).
    Hopper,
    /// A bill validator (addresses 40 to 47).
    NoteAcceptor,
    /// A ticket printer (address 110).
    TicketPrinter,
    /// Any other device.
    Unknown,
}

/// The equipment category a device reports: "Bill Validator", "Coin Acceptor",
/// "Payout" and "Printer" are known, anything else is unknown.
pub open spec fn kind_of_category(text: Seq<u8>) -> CctalkDeviceKind {
    if text == seq![66u8, 105, 108, 108, 32, 86, 97, 108, 105, 100, 97, 116, 111, 114] {
        CctalkDeviceKind::NoteAcceptor
    } else if text == seq![67u8, 111, 105, 110, 32, 65, 99, 99, 101, 112, 116, 111, 114] {
        CctalkDeviceKind::Coinmech
    } else if text == seq![80u8, 97, 121, 111, 117, 116] {
        CctalkDeviceKind::Hopper
    } else if text == seq![80u8, 114, 105, 110, 116, 101, 114] {
        CctalkDeviceKind::TicketPrinter
    } else {
        CctalkDeviceKind::Unknown
    }
}

/// The kind of device the standard bus address stands for.
pub open spec fn kind_of_address(a: u8) -> CctalkDeviceKind {
    if a == 2 || (11 <= a <= 17) {
        CctalkDeviceKind::Coinmech
    } else if 3 <= a <= 10 {
        CctalkDeviceKind::Hopper
    } else if 40 <= a <= 47 {
        CctalkDeviceKind::NoteAcceptor
    } else if a == 110 {
        CctalkDeviceKind::TicketPrinter
    } else {
        CctalkDeviceKind::Unknown
    }
}

/// The name of a kind of device.
pub open spec fn kind_name(k: CctalkDeviceKind) -> Seq<char> {
    match k {
        CctalkDeviceKind::Coinmech => "Coinmech"@,
        CctalkDeviceKind::Hopper => "Hopper"@,
        CctalkDeviceKind::NoteAcceptor => "Note Acceptor"@,
        CctalkDeviceKind::TicketPrinter => "Ticket Printer"@,
        CctalkDeviceKind::Unknown => "Unknown/Unimplemented Device"@,
    }
}

/// Only the exact category texts name a kind: "Bill Validator" a note acceptor,
/// "Coin Acceptor" a coin acceptor, "Payout" a hopper and "Printer" a ticket
/// printer; every other text, a longer or shorter one too, is unknown.
pub proof fn lemma_category_text_exact(t: Seq<u8>)
    ensures
        kind_of_category(t) == CctalkDeviceKind::NoteAcceptor <==> t == seq![
            66u8,
            105,
            108,
            108,
            32,
            86,
            97,
            108,
            105,
            100,
            97,
            116,
            111,
            114,
        ],
        kind_of_category(t) == CctalkDeviceKind::Coinmech <==> t == seq![
            67u8,
            111,
            105,
            110,
            32,
            65,
            99,
            99,
            101,
            112,
            116,
            111,
            114,
        ],
        kind_of_category(t) == CctalkDeviceKind::Hopper <==> t == seq![80u8, 97, 121, 111, 117, 116],
        kind_of_category(t) == CctalkDeviceKind::TicketPrinter <==> t == seq![
            80u8,
            114,
            105,
            110,
            116,
            101,
            114,
        ],
        kind_of_category(t) != CctalkDeviceKind::Unknown ==> 6 <= t.len() <= 14,
{
    let bill = seq![66u8, 105, 108, 108, 32, 86, 97, 108, 105, 100, 97, 116, 111, 114];
    let coin = seq![67u8, 111, 105, 110, 32, 65, 99, 99, 101, 112, 116, 111, 114];
    let payout = seq![80u8, 97, 121, 111, 117, 116];
    let printer = seq![80u8, 114, 105, 110, 116, 101, 114];
    assert(bill.len() == 14 && coin.len() == 13 && payout.len() == 6 && printer.len() == 7);
    assert(bill != coin && bill != payout && bill != printer);
    assert(coin != payout && coin != printer);
    assert(payout[1] != printer[1]);
}

/// The standard address ranges: 2 and 11 to 17 are coin acceptors, 3 to 10
/// hoppers, 40 to 47 note acceptors and 110 alone a ticket printer; every other
/// address is unknown.
pub proof fn lemma_address_ranges(a: u8)
    ensures
        kind_of_address(a) == CctalkDeviceKind::Coinmech <==> (a == 2 || (11 <= a && a <= 17)),
        kind_of_address(a) == CctalkDeviceKind::Hopper <==> (3 <= a && a <= 10),
        kind_of_address(a) == CctalkDeviceKind::NoteAcceptor <==> (40 <= a && a <= 47),
        kind_of_address(a) == CctalkDeviceKind::TicketPrinter <==> a == 110,
        kind_of_address(a) == CctalkDeviceKind::Unknown <==> !(a == 2 || (3 <= a && a <= 17) || (40
            <= a && a <= 47) || a == 110),
{
}

impl CctalkDeviceKind {
    /// The kind a reported equipment category names.
    pub fn from_category(text: &[u8]) -> (r: CctalkDeviceKind)
        ensures
            r == kind_of_category(text@),
    {
        let bill: [u8; 14] = [66, 105, 108, 108, 32, 86, 97, 108, 105, 100, 97, 116, 111, 114];
        let coin: [u8; 13] = [67, 111, 105, 110, 32, 65, 99, 99, 101, 112, 116, 111, 114];
        let payout: [u8; 6] = [80, 97, 121, 111, 117, 116];
        let printer: [u8; 7] = [80, 114, 105, 110, 116, 101, 114];
        if bytes_equal(text, bill.as_slice()) {
            CctalkDeviceKind::NoteAcceptor
        } else if bytes_equal(text, coin.as_slice()) {
            CctalkDeviceKind::Coinmech
        } else if bytes_equal(text, payout.as_slice()) {
            CctalkDeviceKind::Hopper
        } else if bytes_equal(text, printer.as_slice()) {
            CctalkDeviceKind::TicketPrinter
        } else {
            CctalkDeviceKind::Unknown
        }
    }

    /// The kind the standard bus address stands for.
    pub fn from_address(a: u8) -> (r: CctalkDeviceKind)
        ensures
            r == kind_of_address(a),
    {
        if a == 2 || (11 <= a && a <= 17) {
            CctalkDeviceKind::Coinmech
        } else if 3 <= a && a <= 10 {
            CctalkDeviceKind::Hopper
        } else if 40 <= a && a <= 47 {
            CctalkDeviceKind::NoteAcceptor
        } else if a == 110 {
            CctalkDeviceKind::TicketPrinter
        } else {
            CctalkDeviceKind::Unknown
        }
    }

    /// The name of the kind.
    pub fn name(&self) -> (r: &'static str)
        ensures
            r@ == kind_name(*self),
    {
        match self {
            CctalkDeviceKind::Coinmech => "Coinmech",
            CctalkDeviceKind::Hopper => "Hopper",
            CctalkDeviceKind::NoteAcceptor => "Note Acceptor",
            CctalkDeviceKind::TicketPrinter => "Ticket Printer",
            CctalkDeviceKind::Unknown => "Unknown/Unimplemented Device",
        }
    }
}

impl Default for CctalkDeviceKind {
    fn default() -> (r: CctalkDeviceKind)
        ensures
            r == CctalkDeviceKind::Unknown,
    {
        CctalkDeviceKind::Unknown
    }
}

impl From<u8> for CctalkDeviceKind {
    fn from(value: u8) -> (r: CctalkDeviceKind) {
        CctalkDeviceKind::from_address(value)
    }
}

impl vstd::std_specs::convert::FromSpecImpl<u8> for CctalkDeviceKind {
    open spec fn obeys_from_spec() -> bool {
        true
    }

    open spec fn from_spec(value: u8) -> CctalkDeviceKind {
        kind_of_address(value)
    }
}

impl<'a> From<&'a [u8]> for CctalkDeviceKind {
    fn from(value: &'a [u8]) -> (r: CctalkDeviceKind) {
        CctalkDeviceKind::from_category(value)
    }
}

impl<'a> vstd::std_specs::convert::FromSpecImpl<&'a [u8]> for CctalkDeviceKind {
    open spec fn obeys_from_spec() -> bool {
        true
    }

    open spec fn from_spec(value: &'a [u8]) -> CctalkDeviceKind {
        kind_of_category(value@)
    }
}

/// A device on the bus: its address, and what a probe learned of it.
#[derive(Debug)]
pub struct CctalkDevice {
    addr: u8,
    kind: CctalkDeviceKind,
    manu: String,
    model: String,
}

impl CctalkDevice {
    /// The device's bus address.
    pub closed spec fn spec_addr(&self) -> u8 {
        self.addr
    }

    /// The device's kind.
    pub closed spec fn spec_kind(&self) -> CctalkDeviceKind {
        self.kind
    }

    /// The manufacturer the device reported.
    pub closed spec fn spec_manufacturer(&self) -> Seq<char> {
        self.manu@
    }

    /// The product code the device reported.
    pub closed spec fn spec_model(&self) -> Seq<char> {
        self.model@
    }

    /// A device at `addr` that has not been probed: unknown kind, no names.
    pub fn new(addr: u8) -> (r: CctalkDevice)
        ensures
            r.spec_addr() == addr,
            r.spec_kind() == CctalkDeviceKind::Unknown,
            r.spec_manufacturer() == Seq::<char>::empty(),
            r.spec_model() == Seq::<char>::empty(),
    {
        CctalkDevice {
            addr,
            kind: CctalkDeviceKind::Unknown,
            manu: String::new(),
            model: String::new(),
        }
    }

    /// The device's bus address.
    pub fn addr(&self) -> (r: u8)
        ensures
            r == self.spec_addr(),
    {
        self.addr
    }

    /// The device's kind.
    pub fn kind(&self) -> (r: CctalkDeviceKind)
        ensures
            r == self.spec_kind(),
    {
        self.kind
    }

    /// The manufacturer the device reported.
    pub fn manufacturer(&self) -> (r: &str)
        ensures
            r@ == self.spec_manufacturer(),
    {
        self.manu.as_str()
    }

    /// The product code the device reported.
    pub fn model(&self) -> (r: &str)
        ensures
            r@ == self.spec_model(),
    {
        self.model.as_str()
    }
}

impl Default for CctalkDevice {
    fn default() -> (r: CctalkDevice)
        ensures
            r.spec_addr() == 0,
            r.spec_kind() == CctalkDeviceKind::Unknown,
            r.spec_manufacturer() == Seq::<char>::empty(),
            r.spec_model() == Seq::<char>::empty(),
    {
        CctalkDevice::new(0)
    }
}

/// Where a probe stands: the question asked last.
#[derive(Debug, Clone, Copy, PartialEq, Eq, Structural)]
pub enum ProbeStage {
    /// A simple poll was sent.
    Poll,
    /// The equipment category was asked for.
    Category,
    /// The manufacturer was asked for.
    Manufacturer,
    /// The product code was asked for.
    Product,
    /// The probe is over.
    Done,
}

/// What to do next in a probe.
#[derive(Debug, PartialEq, Eq)]
pub enum ProbeAction {
    /// Send a header-only request with this header to the device at `addr`, with the
    /// default timeout (`Transfer::header_only`).
    Request { addr: u8, header: CcTalkHeader },
    /// The probe is over with this outcome.
    Finished(Result<(), CctalkTransmissionError>),
}

/// A probe of a device: a simple poll, then the questions for its equipment
/// category, its manufacturer and its product code. The first failed request ends
/// the probe with its error, and so does a category this library does not know.
pub struct Probe {
    stage: ProbeStage,
}

impl Probe {
    /// Where the probe stands.
    pub closed spec fn stage(&self) -> ProbeStage {
        self.stage
    }

    /// A probe of `device`; the first request is a simple poll.
    pub fn start(device: &CctalkDevice) -> (r: (Probe, ProbeAction))
        ensures
            r.0.stage() == ProbeStage::Poll,
            r.1 == (ProbeAction::Request { addr: device.spec_addr(), header: CcTalkHeader::SimplePoll }),
    {
        (
            Probe { stage: ProbeStage::Poll },
            ProbeAction::Request { addr: device.addr, header: CcTalkHeader::SimplePoll },
        )
    }

    /// Takes in the answer to the last request and names what to do next, recording
    /// what the device reported. The manufacturer and the product code must be valid
    /// UTF-8.
    pub fn step(
        &mut self,
        device: &mut CctalkDevice,
        reply: Result<CctalkMessage, CctalkTransmissionError>,
    ) -> (action: ProbeAction)
        requires
            old(self).stage() != ProbeStage::Done,
            old(self).stage() == ProbeStage::Manufacturer || old(self).stage()
                == ProbeStage::Product ==> (reply matches Ok(m) ==> vstd::utf8::valid_utf8(m@.data)),
        ensures
            final(device).spec_addr() == old(device).spec_addr(),
            final(self).stage() == ProbeStage::Done <==> action is Finished,
            reply matches Err(e) ==> {
                &&& action == ProbeAction::Finished(Err(e))
                &&& *final(device) == *old(device)
            },
            reply is Ok && old(self).stage() == ProbeStage::Poll ==> {
                &&& final(self).stage() == ProbeStage::Category
                &&& action == (ProbeAction::Request {
                    addr: old(device).spec_addr(),
                    header: CcTalkHeader::RequestEquipmentCategory,
                })
                &&& *final(device) == *old(device)
            },
            old(self).stage() == ProbeStage::Category ==> (reply matches Ok(m) ==> {
                &&& final(device).spec_kind() == kind_of_category(m@.data)
                &&& final(device).spec_manufacturer() == old(device).spec_manufacturer()
                &&& final(device).spec_model() == old(device).spec_model()
                &&& if kind_of_category(m@.data) == CctalkDeviceKind::Unknown {
                    action == ProbeAction::Finished(
                        Err(CctalkTransmissionError::CctalkDeviceTypeUnknown),
                    )
                } else {
                    &&& final(self).stage() == ProbeStage::Manufacturer
                    &&& action == (ProbeAction::Request {
                        addr: old(device).spec_addr(),
                        header: CcTalkHeader::RequestManufacturerId,
                    })
                }
            }),
            old(self).stage() == ProbeStage::Manufacturer ==> (reply matches Ok(m) ==> {
                &&& final(device).spec_kind() == old(device).spec_kind()
                &&& final(device).spec_manufacturer() == vstd::utf8::decode_utf8(m@.data)
                &&& final(device).spec_model() == old(device).spec_model()
                &&& final(self).stage() == ProbeStage::Product
                &&& action == (ProbeAction::Request {
                    addr: old(device).spec_addr(),
                    header: CcTalkHeader::RequestProductCode,
                })
            }),
            old(self).stage() == ProbeStage::Product ==> (reply matches Ok(m) ==> {
                &&& final(device).spec_kind() == old(device).spec_kind()
                &&& final(device).spec_manufacturer() == old(device).spec_manufacturer()
                &&& final(device).spec_model() == vstd::utf8::decode_utf8(m@.data)
                &&& action == ProbeAction::Finished(Ok(()))
            }),
    {
        let res = match reply {
            Ok(m) => m,
            Err(e) => {
                self.stage = ProbeStage::Done;
                return ProbeAction::Finished(Err(e));
            },
        };
        match self.stage {
            ProbeStage::Poll => {
                self.stage = ProbeStage::Category;
                ProbeAction::Request {
                    addr: device.addr,
                    header: CcTalkHeader::RequestEquipmentCategory,
                }
            },
            ProbeStage::Category => {
                device.kind = CctalkDeviceKind::from_category(payload_as_slice(res.data()));
                if device.kind == CctalkDeviceKind::Unknown {
                    self.stage = ProbeStage::Done;
                    ProbeAction::Finished(Err(CctalkTransmissionError::CctalkDeviceTypeUnknown))
                } else {
                    self.stage = ProbeStage::Manufacturer;
                    ProbeAction::Request {
                        addr: device.addr,
                        header: CcTalkHeader::RequestManufacturerId,
                    }
                }
            },
            ProbeStage::Manufacturer => {
                device.manu = text_of(payload_as_slice(res.data()));
                self.stage = ProbeStage::Product;
                ProbeAction::Request { addr: device.addr, header: CcTalkHeader::RequestProductCode }
            },
            _ => {
                device.model = text_of(payload_as_slice(res.data()));
                self.stage = ProbeStage::Done;
                ProbeAction::Finished(Ok(()))
            },
        }
    }
}

/// The text that valid UTF-8 bytes encode.
fn text_of(bytes: &[u8]) -> (r: String)
    requires
        vstd::utf8::valid_utf8(bytes@),
    ensures
        r@ == vstd::utf8::decode_utf8(bytes@),
{
    match utf8_text(bytes) {
        Some(t) => {
            proof {
                vstd::utf8::encode_utf8_decode_utf8(t@);
            }
            String::from_str(t)
        },
        None => String::new(),
    }
}

} // verus!
