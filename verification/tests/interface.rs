use cctalk::device::{CctalkDevice, CctalkDeviceKind, Probe, ProbeAction};
use cctalk::errors::{CctalkMessageError, CctalkTransmissionError};
use cctalk::headers::CcTalkHeader;
use cctalk::interface::{
    AddressScan, Cctalk, ReadAction, ReadEvent, ReadPoll, ScanAction, ScanEvent, Transfer,
    TransferAction, TransferEvent,
};
use cctalk::message::CctalkMessage;
use cctalk::MASTER_ADDR;
use embedded_hal::delay::DelayNs;
use embedded_hal_mock::eh1::serial::{Mock as UartMock, Transaction as UartTransaction};
use embedded_hal_nb::serial::{Read, Write};
use heapless::Vec as hVec;
use nb::Error::WouldBlock;

struct MockDelay {
    pub total_ms_delayed: u32,
}
impl DelayNs for MockDelay {
    fn delay_ns(&mut self, ns: u32) {
        self.total_ms_delayed += ns / 1_000_000;
    }
    fn delay_ms(&mut self, ms: u32) {
        self.total_ms_delayed += ms;
    }
}

const ADDR_POL: [u8; 5] = [0, 0, 1, 253, 2];

// The same loops the host runs on a real port: perform each action, hand back
// what happened.

fn run_read(cctalk: &mut Cctalk<UartMock<u8>, MockDelay>, mut poll: ReadPoll) -> Result<ReadPoll, CctalkTransmissionError> {
    loop {
        let event = match cctalk.uart.read() {
            Ok(b) => ReadEvent::Byte(b),
            Err(nb::Error::WouldBlock) => ReadEvent::WouldBlock,
            Err(nb::Error::Other(_)) => ReadEvent::Failed,
        };
        match poll.step(event) {
            ReadAction::ReadNext => {}
            ReadAction::Wait(ms) => cctalk.delay.delay_ms(ms),
            ReadAction::WaitThenStop(ms) => {
                cctalk.delay.delay_ms(ms);
                return Ok(poll);
            }
            ReadAction::Stop => return Ok(poll),
            ReadAction::Fail(e) => return Err(e),
        }
    }
}

fn read_msg_exact(
    cctalk: &mut Cctalk<UartMock<u8>, MockDelay>,
    timeout_ms: u32,
    num_bytes: usize,
) -> Result<CctalkMessage, CctalkTransmissionError> {
    let poll = ReadPoll::for_read_msg_exact(timeout_ms, num_bytes)?;
    run_read(cctalk, poll)?.to_message()
}

fn read_msg(
    cctalk: &mut Cctalk<UartMock<u8>, MockDelay>,
    timeout_ms: u32,
) -> Result<CctalkMessage, CctalkTransmissionError> {
    run_read(cctalk, ReadPoll::for_read_msg(timeout_ms))?.to_message()
}

fn read_bytes(
    cctalk: &mut Cctalk<UartMock<u8>, MockDelay>,
    timeout_ms: u32,
) -> Result<hVec<u8, 260>, CctalkTransmissionError> {
    Ok(run_read(cctalk, ReadPoll::for_read_bytes(timeout_ms))?.into_bytes())
}

fn read_bytes_exact(
    cctalk: &mut Cctalk<UartMock<u8>, MockDelay>,
    timeout_ms: u32,
    num_bytes: usize,
) -> Result<hVec<u8, 260>, CctalkTransmissionError> {
    Ok(run_read(cctalk, ReadPoll::for_read_bytes_exact(timeout_ms, num_bytes))?.into_bytes())
}

fn write_bytes(cctalk: &mut Cctalk<UartMock<u8>, MockDelay>, bytes: &[u8]) {
    for b in bytes {
        loop {
            match cctalk.uart.write(*b) {
                Err(nb::Error::WouldBlock) => continue,
                _ => break,
            }
        }
    }
}

fn write_msg(
    cctalk: &mut Cctalk<UartMock<u8>, MockDelay>,
    msg: CctalkMessage,
) -> Result<hVec<u8, 260>, CctalkTransmissionError> {
    let bytes = msg
        .try_to_bytes()
        .map_err(CctalkTransmissionError::CctalkMessageError)?;
    write_bytes(cctalk, &bytes);
    Ok(bytes)
}

fn run_transfer(
    cctalk: &mut Cctalk<UartMock<u8>, MockDelay>,
    (mut t, mut action): (Transfer, TransferAction),
) -> Result<CctalkMessage, CctalkTransmissionError> {
    loop {
        let event = match action {
            TransferAction::Write => {
                let bytes: std::vec::Vec<u8> = t.frame().to_vec();
                write_bytes(cctalk, &bytes);
                TransferEvent::Written
            }
            TransferAction::ReadEcho { timeout_ms, num_bytes } => {
                TransferEvent::Echo(read_msg_exact(cctalk, timeout_ms, num_bytes))
            }
            TransferAction::ReadReply { timeout_ms } => {
                TransferEvent::Reply(read_msg(cctalk, timeout_ms))
            }
            TransferAction::Finished(r) => return r,
        };
        action = t.step(event);
    }
}

fn transfer(
    cctalk: &mut Cctalk<UartMock<u8>, MockDelay>,
    msg: CctalkMessage,
    timeout_ms: u32,
) -> Result<CctalkMessage, CctalkTransmissionError> {
    let echo = cctalk.echo;
    run_transfer(cctalk, Transfer::start(msg, echo, timeout_ms, false))
}

fn header_only(
    cctalk: &mut Cctalk<UartMock<u8>, MockDelay>,
    addr: u8,
    header: CcTalkHeader,
    timeout_ms: Option<u32>,
) -> Result<CctalkMessage, CctalkTransmissionError> {
    let echo = cctalk.echo;
    run_transfer(cctalk, Transfer::header_only(addr, header, timeout_ms, echo))
}

fn addr_scan(
    cctalk: &mut Cctalk<UartMock<u8>, MockDelay>,
    timeout_ms: u32,
) -> Result<hVec<u8, 260>, CctalkTransmissionError> {
    let (mut scan, mut action) = AddressScan::start(cctalk.echo, timeout_ms);
    loop {
        let event = match action {
            ScanAction::Write => {
                let bytes: std::vec::Vec<u8> = scan.frame().to_vec();
                write_bytes(cctalk, &bytes);
                ScanEvent::Written
            }
            ScanAction::ReadEcho { timeout_ms, num_bytes } => {
                ScanEvent::Echo(read_msg_exact(cctalk, timeout_ms, num_bytes))
            }
            ScanAction::ReadBytes { timeout_ms } => ScanEvent::Bytes(read_bytes(cctalk, timeout_ms)),
            ScanAction::Finished(r) => return r,
        };
        action = scan.step(event);
    }
}

fn probe(
    device: &mut CctalkDevice,
    cctalk: &mut Cctalk<UartMock<u8>, MockDelay>,
) -> Result<(), CctalkTransmissionError> {
    let (mut p, mut action) = Probe::start(device);
    loop {
        match action {
            ProbeAction::Request { addr, header } => {
                let reply = header_only(cctalk, addr, header, None);
                action = p.step(device, reply);
            }
            ProbeAction::Finished(r) => return r,
        }
    }
}

fn new_cctalk(uart: &UartMock<u8>, echo: bool) -> Cctalk<UartMock<u8>, MockDelay> {
    let timer = MockDelay {
        total_ms_delayed: 0,
    };
    Cctalk::new(uart.clone(), timer, echo)
}

fn frame(msg: &CctalkMessage) -> std::vec::Vec<u8> {
    msg.try_to_bytes().unwrap().to_vec()
}

#[test]
fn test_header_only_send() {
    const NOTE_ACC_ADDR: u8 = 0x28;

    let tx_msg = CctalkMessage::new(
        NOTE_ACC_ADDR,
        MASTER_ADDR,
        CcTalkHeader::SimplePoll,
        hVec::new(),
    );

    let rx_na_bytes = [MASTER_ADDR, 0x00, NOTE_ACC_ADDR, CcTalkHeader::Ack.to_u8(), 215];

    let expectations = [
        //Note Acceptor
        UartTransaction::write_many(frame(&tx_msg)),
        UartTransaction::read_many(frame(&tx_msg)),
        UartTransaction::read_error(WouldBlock),
        UartTransaction::read_many(&rx_na_bytes),
        UartTransaction::read_error(WouldBlock),
        UartTransaction::read_error(WouldBlock),
        UartTransaction::read_error(WouldBlock),
        UartTransaction::read_error(WouldBlock),
    ];

    let mut uart = UartMock::new(&expectations);
    let mut cctalk = new_cctalk(&uart, true);

    let res = header_only(&mut cctalk, NOTE_ACC_ADDR, CcTalkHeader::SimplePoll, Some(5));
    println!("{:?}", res);
    assert_eq!(
        res.unwrap(),
        CctalkMessage::try_from_bytes(&rx_na_bytes).unwrap(),
    );
    uart.done();
}

#[test]
fn test_read_bytes_exact() {
    let tx = [
        0x28, 0x22, 0x34, 0x35, 0x00, //dest
    ];

    let rx_bytes: hVec<u8, 260> = hVec::from_slice(&tx).unwrap();

    let expectations = [UartTransaction::read_many(tx)];

    let mut uart = UartMock::new(&expectations);
    let mut cctalk = new_cctalk(&uart, true);

    let result = read_bytes_exact(&mut cctalk, 5, 5);

    assert_eq!(result.unwrap(), rx_bytes);

    uart.done();
}

#[test]
fn test_read_bytes_exact_too_many_bytes() {
    let tx = [
        0x28, 0x22, 0x34, 0x35, 0x00, //dest
    ];

    let rx_bytes: hVec<u8, 260> = hVec::from_slice(&tx).unwrap();

    let expectations = [
        UartTransaction::read_many([0x28, 0x22, 0x34, 0x35]),
        UartTransaction::read_error(WouldBlock),
    ];

    let mut uart = UartMock::new(&expectations);
    let mut cctalk = new_cctalk(&uart, true);

    let result = read_bytes_exact(&mut cctalk, 5, 5);

    assert_ne!(result.unwrap(), rx_bytes); // left 4 bytes, right 5 bytes

    uart.done();
}

#[test]
fn test_rx_cctalk_msg() {
    let rx_bytes = [
        0x01,                                        //dest
        0x04,                                        //data len - 4 bytes
        0x02,                                        //source
        CcTalkHeader::UploadCalibrationData.to_u8(), //header
        0x34,                                        // data byte 1
        0xFF,                                        // data byte 2
        0x98,                                        // data byte 3
        0x13,                                        // data byte 4
        0x53,                                        // chksum
    ];

    let expectations = [UartTransaction::read_many(rx_bytes)];
    let mut uart = UartMock::new(&expectations);
    let mut cctalk = new_cctalk(&uart, true);

    let result = read_msg_exact(&mut cctalk, 2, 9).map_err(|_e| CctalkMessageError::NoChkSum);

    assert_eq!(CctalkMessage::try_from_bytes(&rx_bytes), result);

    uart.done();
}

#[test]
fn test_tx_cctalk_msg() {
    let tx_case = CctalkMessage::new(0x06, 0x01, CcTalkHeader::ResetDevice, hVec::new());

    let expectations = [UartTransaction::write_many([
        0x06,
        0x00,
        0x01,
        CcTalkHeader::ResetDevice.to_u8(),
        0xF8,
    ])];

    let mut uart = UartMock::new(&expectations);
    let mut cctalk = new_cctalk(&uart, true);

    let result = write_msg(&mut cctalk, tx_case.clone()).unwrap();
    assert_eq!(&result[..], tx_case.try_to_bytes().unwrap().as_slice());
    uart.done();
}

#[test]
fn test_send_cctalk_echo() {
    let tx_case = CctalkMessage::new(0x02, 0x01, CcTalkHeader::SimplePoll, hVec::new());

    let rx_bytes = [
        0x01,                                        //dest
        0x04,                                        //data len - 4 bytes
        0x02,                                        //source
        CcTalkHeader::UploadCalibrationData.to_u8(), //header
        0x34,                                        // data byte 1
        0xFF,                                        // data byte 2
        0x98,                                        // data byte 3
        0x13,                                        // data byte 4
        0x53,
    ];

    let expectations = [
        UartTransaction::write_many(frame(&tx_case)),
        UartTransaction::read_many(frame(&tx_case)),
        UartTransaction::read_error(WouldBlock),
        UartTransaction::read_many(rx_bytes),
        UartTransaction::read_error(WouldBlock),
    ];

    let mut uart = UartMock::new(&expectations);
    let mut cctalk = new_cctalk(&uart, true);

    let result = transfer(&mut cctalk, tx_case, 2);

    assert_eq!(
        result.unwrap(),
        CctalkMessage::try_from_bytes(&rx_bytes).unwrap()
    );

    uart.done();
}

#[test]
fn test_read_bytes() {
    let rx_bytes: hVec<u8, 260> = hVec::from_slice(&[
        0x28, //dest
    ])
    .unwrap();

    let expectations = [
        UartTransaction::read(0x28),
        UartTransaction::read_error(WouldBlock),
        UartTransaction::read_error(WouldBlock),
    ];

    let mut uart = UartMock::new(&expectations);
    let mut cctalk = new_cctalk(&uart, true);

    let result = read_bytes(&mut cctalk, 2);

    assert_eq!(result.unwrap(), rx_bytes);

    uart.done();
}

#[test]
fn test_send_cctalk_no_echo() {
    let tx_case = CctalkMessage::new(0x02, 0x01, CcTalkHeader::SimplePoll, hVec::new());

    let rx_bytes = [
        0x01,                                        //dest
        0x04,                                        //data len - 4 bytes
        0x02,                                        //source
        CcTalkHeader::UploadCalibrationData.to_u8(), //header
        0x34,                                        // data byte 1
        0xFF,                                        // data byte 2
        0x98,                                        // data byte 3
        0x13,                                        // data byte 4
        0x53,
    ];

    let expectations = [
        UartTransaction::write_many(frame(&tx_case)),
        UartTransaction::read_many(rx_bytes),
        UartTransaction::read_error(WouldBlock),
        UartTransaction::read_error(WouldBlock),
    ];

    let mut uart = UartMock::new(&expectations);
    let mut cctalk = new_cctalk(&uart, false);

    let result = transfer(&mut cctalk, tx_case, 2);

    assert_eq!(
        result.unwrap(),
        CctalkMessage::try_from_bytes(&rx_bytes).unwrap()
    );

    uart.done();
}

#[test]
fn test_send_cctalk_incorrect_echo() {
    let tx_case = CctalkMessage::new(0x02, 0x01, CcTalkHeader::SimplePoll, hVec::new());

    let expectations = [
        UartTransaction::write_many(frame(&tx_case)),
        UartTransaction::read_many([0x02, 0x00, 0x01, 0xFE, 0xF7]), // wrong checksum byte
    ];

    let mut uart = UartMock::new(&expectations);
    let mut cctalk = new_cctalk(&uart, true);

    let result = transfer(&mut cctalk, tx_case, 2);

    assert_eq!(result, Err(CctalkTransmissionError::FailedToReciveEcho));

    uart.done();
}

#[test]
fn test_rx_cctalk_incorrect_len() {
    let tx_case = CctalkMessage::new(0x02, 0x01, CcTalkHeader::SimplePoll, hVec::new());

    let rx_bytes = [
        0x01, //dest
        0x03, //data len - should be 4 bytes
        0x02,                                        //source
        CcTalkHeader::UploadCalibrationData.to_u8(), //header
        0x34,                                        // data byte 1
        0xFF,                                        // data byte 2
        0x98,                                        // data byte 3
        0x13,                                        // data byte 4
        0x53,
    ];

    let expectations = [
        UartTransaction::write_many(frame(&tx_case)),
        UartTransaction::read_many(rx_bytes),
        UartTransaction::read_error(WouldBlock),
        UartTransaction::read_error(WouldBlock),
    ];

    let mut uart = UartMock::new(&expectations);
    let mut cctalk = new_cctalk(&uart, false);

    let result = transfer(&mut cctalk, tx_case, 2).err();

    assert_eq!(
        Some(CctalkTransmissionError::CctalkMessageError(
            CctalkMessageError::IncorrectDataLen(8, 9)
        )),
        result
    );

    uart.done();
}

#[test]
fn read_msg_exact_rejects_short_request() {
    assert!(matches!(
        ReadPoll::for_read_msg_exact(5, 4),
        Err(CctalkTransmissionError::RxDataMalformedLength)
    ));
}

#[test]
fn read_poll_reports_port_error() {
    let mut poll = ReadPoll::for_read_msg(3);
    assert_eq!(poll.step(ReadEvent::Byte(1)), ReadAction::ReadNext);
    assert_eq!(poll.step(ReadEvent::WouldBlock), ReadAction::Wait(1));
    assert_eq!(
        poll.step(ReadEvent::Failed),
        ReadAction::Fail(CctalkTransmissionError::CctalkSerialReadError)
    );
}

#[test]
fn read_poll_with_zero_timeout_stops_at_first_wait() {
    let mut poll = ReadPoll::for_read_bytes(0);
    assert_eq!(poll.step(ReadEvent::Byte(9)), ReadAction::ReadNext);
    assert_eq!(poll.step(ReadEvent::WouldBlock), ReadAction::WaitThenStop(1));
    assert_eq!(poll.into_bytes().as_slice(), &[9]);
}

#[test]
fn read_poll_keeps_at_most_260_bytes() {
    let mut poll = ReadPoll::for_read_bytes_exact(10, 300);
    for i in 0..300u32 {
        assert_eq!(poll.step(ReadEvent::Byte(i as u8)), ReadAction::ReadNext);
    }
    let bytes = poll.into_bytes();
    assert_eq!(bytes.len(), 260);
    assert_eq!(bytes[259], 3);
}

#[test]
fn header_only_rejects_non_ack() {
    let tx_msg = CctalkMessage::new(0x28, MASTER_ADDR, CcTalkHeader::SimplePoll, hVec::new());
    let nak = CctalkMessage::new(MASTER_ADDR, 0x28, CcTalkHeader::Nak, hVec::new());
    let expectations = [
        UartTransaction::write_many(frame(&tx_msg)),
        UartTransaction::read_many(frame(&nak)),
        UartTransaction::read_error(WouldBlock),
        UartTransaction::read_error(WouldBlock),
    ];
    let mut uart = UartMock::new(&expectations);
    let mut cctalk = new_cctalk(&uart, false);
    let res = header_only(&mut cctalk, 0x28, CcTalkHeader::SimplePoll, Some(2));
    assert_eq!(
        res,
        Err(CctalkTransmissionError::CctalkFailedToAck(CcTalkHeader::Nak))
    );
    uart.done();
}

#[test]
fn transfer_rejects_bad_reply_checksum() {
    let tx_msg = CctalkMessage::new(0x28, MASTER_ADDR, CcTalkHeader::SimplePoll, hVec::new());
    let expectations = [
        UartTransaction::write_many(frame(&tx_msg)),
        UartTransaction::read_many([MASTER_ADDR, 0x00, 0x28, 0x00, 214]),
        UartTransaction::read_error(WouldBlock),
        UartTransaction::read_error(WouldBlock),
    ];
    let mut uart = UartMock::new(&expectations);
    let mut cctalk = new_cctalk(&uart, false);
    let res = transfer(&mut cctalk, tx_msg, 2);
    assert_eq!(res, Err(CctalkTransmissionError::RxDataMalformedChksum));
    uart.done();
}

#[test]
fn address_scan_collects_answers() {
    let expectations = [
        UartTransaction::write_many(ADDR_POL),
        UartTransaction::read_many(ADDR_POL),
        UartTransaction::read_many([0x28, 0x02]),
        UartTransaction::read_error(WouldBlock),
        UartTransaction::read_error(WouldBlock),
    ];
    let mut uart = UartMock::new(&expectations);
    let mut cctalk = new_cctalk(&uart, true);
    let res = addr_scan(&mut cctalk, 2).unwrap();
    assert_eq!(res.as_slice(), &[0x28, 0x02]);
    uart.done();
}

#[test]
fn address_scan_detects_bad_echo() {
    let expectations = [
        UartTransaction::write_many(ADDR_POL),
        UartTransaction::read_many([0, 0, 1, 253, 3]),
    ];
    let mut uart = UartMock::new(&expectations);
    let mut cctalk = new_cctalk(&uart, true);
    assert_eq!(
        addr_scan(&mut cctalk, 2),
        Err(CctalkTransmissionError::FailedToReciveEcho)
    );
    uart.done();
}

fn reply_frame(header: CcTalkHeader, data: &[u8]) -> std::vec::Vec<u8> {
    let msg = CctalkMessage::new(MASTER_ADDR, 0x02, header, hVec::from_slice(data).unwrap());
    frame(&msg)
}

fn request_frame(header: CcTalkHeader) -> std::vec::Vec<u8> {
    frame(&CctalkMessage::new(0x02, MASTER_ADDR, header, hVec::new()))
}

#[test]
fn probe_learns_device() {
    let mut expectations = std::vec::Vec::new();
    let steps: [(CcTalkHeader, &[u8]); 4] = [
        (CcTalkHeader::SimplePoll, b""),
        (CcTalkHeader::RequestEquipmentCategory, b"Coin Acceptor"),
        (CcTalkHeader::RequestManufacturerId, b"ACME"),
        (CcTalkHeader::RequestProductCode, b"CX-1"),
    ];
    for (header, answer) in steps {
        expectations.push(UartTransaction::write_many(request_frame(header)));
        expectations.push(UartTransaction::read_many(reply_frame(CcTalkHeader::Ack, answer)));
        for _ in 0..40 {
            expectations.push(UartTransaction::read_error(WouldBlock));
        }
    }
    let mut uart = UartMock::new(&expectations);
    let mut cctalk = new_cctalk(&uart, false);
    let mut device = CctalkDevice::new(0x02);
    assert_eq!(probe(&mut device, &mut cctalk), Ok(()));
    assert_eq!(device.kind(), CctalkDeviceKind::Coinmech);
    assert_eq!(device.manufacturer(), "ACME");
    assert_eq!(device.model(), "CX-1");
    uart.done();
}

#[test]
fn probe_stops_at_unknown_category() {
    let mut expectations = std::vec::Vec::new();
    let steps: [(CcTalkHeader, &[u8]); 2] = [
        (CcTalkHeader::SimplePoll, b""),
        (CcTalkHeader::RequestEquipmentCategory, b"Toaster"),
    ];
    for (header, answer) in steps {
        expectations.push(UartTransaction::write_many(request_frame(header)));
        expectations.push(UartTransaction::read_many(reply_frame(CcTalkHeader::Ack, answer)));
        for _ in 0..40 {
            expectations.push(UartTransaction::read_error(WouldBlock));
        }
    }
    let mut uart = UartMock::new(&expectations);
    let mut cctalk = new_cctalk(&uart, false);
    let mut device = CctalkDevice::new(0x02);
    assert_eq!(
        probe(&mut device, &mut cctalk),
        Err(CctalkTransmissionError::CctalkDeviceTypeUnknown)
    );
    assert_eq!(device.kind(), CctalkDeviceKind::Unknown);
    uart.done();
}

#[test]
fn transfer_machine_steps() {
    let msg = CctalkMessage::new(0x28, MASTER_ADDR, CcTalkHeader::SimplePoll, hVec::new());
    let (mut t, action) = Transfer::start(msg.clone(), true, 7, false);
    assert!(matches!(action, TransferAction::Write));
    assert_eq!(t.frame(), &[0x28, 0, 1, 254, 217]);
    assert!(matches!(
        t.step(TransferEvent::Written),
        TransferAction::ReadEcho { timeout_ms: 7, num_bytes: 5 }
    ));
    assert!(matches!(
        t.step(TransferEvent::Echo(Ok(msg))),
        TransferAction::ReadReply { timeout_ms: 7 }
    ));
    let reply = CctalkMessage::new(MASTER_ADDR, 0x28, CcTalkHeader::Nak, hVec::new());
    match t.step(TransferEvent::Reply(Ok(reply.clone()))) {
        TransferAction::Finished(Ok(m)) => assert_eq!(m, reply),
        _ => panic!("transfer should end with the reply"),
    }
}

#[test]
fn header_only_machine_uses_default_timeout() {
    let (mut t, _) = Transfer::header_only(0x28, CcTalkHeader::SimplePoll, None, false);
    assert!(matches!(
        t.step(TransferEvent::Written),
        TransferAction::ReadReply { timeout_ms: 40 }
    ));
    match t.step(TransferEvent::Reply(Err(CctalkTransmissionError::CctalkSerialReadError))) {
        TransferAction::Finished(r) => {
            assert_eq!(r, Err(CctalkTransmissionError::CctalkSerialReadError))
        }
        _ => panic!("transfer should end"),
    }
}

#[test]
fn echo_read_failure_is_echo_error() {
    let msg = CctalkMessage::new(0x28, MASTER_ADDR, CcTalkHeader::SimplePoll, hVec::new());
    let (mut t, _) = Transfer::start(msg, true, 7, true);
    let _ = t.step(TransferEvent::Written);
    match t.step(TransferEvent::Echo(Err(CctalkTransmissionError::CctalkSerialReadError))) {
        TransferAction::Finished(r) => {
            assert_eq!(r, Err(CctalkTransmissionError::FailedToReciveEcho))
        }
        _ => panic!("transfer should end"),
    }
}

#[test]
fn address_scan_machine_steps() {
    let (mut scan, _) = AddressScan::start(true, 9);
    assert_eq!(scan.frame(), &ADDR_POL);
    assert!(matches!(
        scan.step(ScanEvent::Written),
        ScanAction::ReadEcho { timeout_ms: 20, num_bytes: 5 }
    ));
    match scan.step(ScanEvent::Echo(Err(CctalkTransmissionError::RxDataMalformedLength))) {
        ScanAction::Finished(r) => assert_eq!(r, Err(CctalkTransmissionError::CctalkSerialReadError)),
        _ => panic!("scan should end"),
    }
}

#[test]
fn transmission_error_messages() {
    assert_eq!(
        CctalkTransmissionError::FailedToReciveEcho.message(),
        "failed to receive tx echo"
    );
    assert_eq!(
        CctalkTransmissionError::CctalkMessageError(CctalkMessageError::IncorrectDataLen(8, 9))
            .message(),
        "Message error: Wrong data length: 8, should be: 9"
    );
}

#[test]
fn exact_reads_accept_the_largest_timeouts() {
    let mut poll = match ReadPoll::for_read_msg_exact(u32::MAX, 5) {
        Ok(p) => p,
        Err(_) => panic!("a five-byte read is allowed"),
    };
    assert_eq!(poll.step(ReadEvent::WouldBlock), ReadAction::Wait(5));
    for b in [2u8, 0, 1, 254, 255] {
        let _ = poll.step(ReadEvent::Byte(b));
    }
    assert!(poll.to_message().is_ok());
    let mut poll = ReadPoll::for_read_bytes_exact(u32::MAX - 3, 2);
    assert_eq!(poll.step(ReadEvent::WouldBlock), ReadAction::Wait(5));
    assert_eq!(poll.step(ReadEvent::Byte(1)), ReadAction::ReadNext);
    assert_eq!(poll.step(ReadEvent::Byte(2)), ReadAction::Stop);
    assert_eq!(poll.into_bytes().as_slice(), &[1, 2]);
}
