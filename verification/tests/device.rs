use cctalk::device::{CctalkDevice, CctalkDeviceKind};
use heapless::Vec as hVec;

#[test]
fn test_cctalkdevicekind_from_u8() {
    let input: [u8; 5] = [110, 018, 002, 042, 007];
    let expected: hVec<CctalkDeviceKind, 5> = hVec::from_slice(&[
        CctalkDeviceKind::TicketPrinter,
        CctalkDeviceKind::Unknown,
        CctalkDeviceKind::Coinmech,
        CctalkDeviceKind::NoteAcceptor,
        CctalkDeviceKind::Hopper,
    ])
    .unwrap();
    let mut result: hVec<CctalkDeviceKind, 5> = hVec::new();

    for addr in input {
        _ = result.push(CctalkDeviceKind::from(addr));
    }

    assert_eq!(result, expected);
}

#[test]
fn device_kind_address_ranges() {
    assert_eq!(CctalkDeviceKind::from(2u8), CctalkDeviceKind::Coinmech);
    assert_eq!(CctalkDeviceKind::from(11u8), CctalkDeviceKind::Coinmech);
    assert_eq!(CctalkDeviceKind::from(17u8), CctalkDeviceKind::Coinmech);
    assert_eq!(CctalkDeviceKind::from(3u8), CctalkDeviceKind::Hopper);
    assert_eq!(CctalkDeviceKind::from(10u8), CctalkDeviceKind::Hopper);
    assert_eq!(CctalkDeviceKind::from(40u8), CctalkDeviceKind::NoteAcceptor);
    assert_eq!(CctalkDeviceKind::from(47u8), CctalkDeviceKind::NoteAcceptor);
    assert_eq!(CctalkDeviceKind::from(48u8), CctalkDeviceKind::Unknown);
    assert_eq!(CctalkDeviceKind::from(1u8), CctalkDeviceKind::Unknown);
    assert_eq!(CctalkDeviceKind::from(0u8), CctalkDeviceKind::Unknown);
}

#[test]
fn device_kind_from_category_text() {
    assert_eq!(CctalkDeviceKind::from(&b"Bill Validator"[..]), CctalkDeviceKind::NoteAcceptor);
    assert_eq!(CctalkDeviceKind::from(&b"Coin Acceptor"[..]), CctalkDeviceKind::Coinmech);
    assert_eq!(CctalkDeviceKind::from(&b"Payout"[..]), CctalkDeviceKind::Hopper);
    assert_eq!(CctalkDeviceKind::from(&b"Printer"[..]), CctalkDeviceKind::TicketPrinter);
    assert_eq!(CctalkDeviceKind::from(&b"Printe"[..]), CctalkDeviceKind::Unknown);
    assert_eq!(CctalkDeviceKind::from(&b""[..]), CctalkDeviceKind::Unknown);
}

#[test]
fn device_kind_names() {
    assert_eq!(CctalkDeviceKind::Coinmech.name(), "Coinmech");
    assert_eq!(CctalkDeviceKind::NoteAcceptor.name(), "Note Acceptor");
    assert_eq!(CctalkDeviceKind::Unknown.name(), "Unknown/Unimplemented Device");
    assert_eq!(CctalkDeviceKind::default(), CctalkDeviceKind::Unknown);
}

#[test]
fn new_device_is_unprobed() {
    let d = CctalkDevice::new(0x28);
    assert_eq!(d.addr(), 0x28);
    assert_eq!(d.kind(), CctalkDeviceKind::Unknown);
    assert_eq!(d.manufacturer(), "");
    assert_eq!(d.model(), "");
}
