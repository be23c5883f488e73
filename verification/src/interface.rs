//! The host side of the bus: the decisions of every transaction.
//!
//! Talking to the serial port and waiting are the caller's part. Each transaction
//! here is a state machine: the caller performs the action it names (write the
//! frame, read a byte, wait) and hands back what happened, and the machine decides
//! what comes next and, in the end, the outcome.
use crate::errors::CctalkTransmissionError;
use crate::headers::{header_code, header_of_code, CcTalkHeader};
use crate::hvec::{frame_as_slice, frame_bytes, frame_len, frame_new, frame_push, payload_new};
use crate::message::{
    decode_frame, encode_parts, integrity_check, new_8bit_parts, CctalkMessage, MessageParts,
};
use crate::{DEFAULT_TIMEOUT_MS, MASTER_ADDR};
use vstd::prelude::*;

verus! {

/// A ccTalk host on a serial port `uart`, waiting with `delay`; `echo` says whether
/// the line echoes every byte the host sends.
#[derive(Debug, PartialEq, PartialOrd)]
pub struct Cctalk<UART, DELAY> {
    pub uart: UART,
    pub delay: DELAY,
    pub echo: bool,
}

impl<UART, DELAY> Cctalk<UART, DELAY> {
    pub fn new(uart: UART, delay: DELAY, echo: bool) -> (r: Self)
        ensures
            r.uart == uart,
            r.delay == delay,
            r.echo == echo,
    {
        Self { uart, delay, echo }
    }
}

/// A whole number of steps below a bound that is itself a whole number of steps
/// leaves room for one more step.
proof fn lemma_next_multiple_fits(e: int, i: int, m: int)
    requires
        i > 0,
        e >= 0,
        e % i == 0,
        m % i == 0,
        e < m,
    ensures
        e + i <= m,
        (e + i) % i == 0,
{
    let a = e / i;
    let b = m / i;
    assert(e == i * a) by (nonlinear_arith)
        requires
            i > 0,
            e % i == 0,
            a == e / i,
    ;
    assert(m == i * b) by (nonlinear_arith)
        requires
            i > 0,
            m % i == 0,
            b == m / i,
    ;
    assert(a < b) by (nonlinear_arith)
        requires
            e == i * a,
            m == i * b,
            e < m,
            i > 0,
    ;
    assert(e + i <= m) by (nonlinear_arith)
        requires
            e == i * a,
            m == i * b,
            a < b,
            i > 0,
    ;
    assert((e + i) % i == 0) by (nonlinear_arith)
        requires
            e == i * a,
            i > 0,
    ;
}

/// What the serial port gave when asked for a byte.
pub enum ReadEvent {
    /// A byte arrived.
    Byte(u8),
    /// No byte is there yet.
    WouldBlock,
    /// The port reported an error.
    Failed,
}

/// What to do next while reading.
#[derive(Debug, PartialEq, Eq, Structural)]
pub enum ReadAction {
    /// Ask the port for the next byte.
    ReadNext,
    /// Wait this many milliseconds, then ask for the next byte.
    Wait(u32),
    /// Wait this many milliseconds; the read is over.
    WaitThenStop(u32),
    /// The read is over.
    Stop,
    /// The read failed with this error.
    Fail(CctalkTransmissionError),
}

/// A read from the serial port in progress: the bytes received so far and the time
/// spent waiting. The read is over once `wanted` bytes are held, once the time
/// spent waiting reaches the timeout, or when the port fails. At most 260 bytes are
/// kept; bytes beyond them are dropped.
pub struct ReadPoll {
    buf: heapless::Vec<u8, 260>,
    elapsed_ms: u32,
    interval_ms: u32,
    timeout_ms: u32,
    wanted: usize,
    finished: bool,
}

impl ReadPoll {
    /// The bytes received and kept so far.
    pub closed spec fn received(&self) -> Seq<u8> {
        frame_bytes(self.buf)
    }

    /// The time spent waiting so far.
    pub closed spec fn elapsed(&self) -> u32 {
        self.elapsed_ms
    }

    /// How long each wait lasts.
    pub closed spec fn interval(&self) -> u32 {
        self.interval_ms
    }

    /// The time after which the read gives up.
    pub closed spec fn timeout(&self) -> u32 {
        self.timeout_ms
    }

    /// The number of bytes that ends the read.
    pub closed spec fn wanted(&self) -> usize {
        self.wanted
    }

    /// Whether the read is over.
    pub closed spec fn is_finished(&self) -> bool {
        self.finished
    }

    /// The waits of a read that is not over cannot overflow the time counter: the
    /// interval divides `u32::MAX`, the time waited is a whole number of intervals,
    /// and while the read goes on it is below the timeout (or nothing was waited).
    pub closed spec fn wf(&self) -> bool {
        &&& self.interval_ms > 0
        &&& u32::MAX as int % self.interval_ms as int == 0
        &&& self.elapsed_ms as int % self.interval_ms as int == 0
        &&& !self.finished ==> (self.elapsed_ms == 0 || self.elapsed_ms < self.timeout_ms)
    }

    fn start(timeout_ms: u32, interval_ms: u32, wanted: usize) -> (r: ReadPoll)
        requires
            interval_ms > 0,
            u32::MAX as int % interval_ms as int == 0,
        ensures
            r.wf(),
            !r.is_finished(),
            r.received() == Seq::<u8>::empty(),
            r.elapsed() == 0,
            r.interval() == interval_ms,
            r.timeout() == timeout_ms,
            r.wanted() == wanted,
    {
        assert(0int % interval_ms as int == 0) by (nonlinear_arith)
            requires
                interval_ms > 0,
        ;
        ReadPoll { buf: frame_new(), elapsed_ms: 0, interval_ms, timeout_ms, wanted, finished: false }
    }

    /// The read of a whole message of `num_bytes` bytes, waiting 5 ms at a time. A
    /// frame has at least five bytes: asking for fewer is an error.
    pub fn for_read_msg_exact(timeout_ms: u32, num_bytes: usize) -> (r: Result<
        ReadPoll,
        CctalkTransmissionError,
    >)
        ensures
            num_bytes <= 4 ==> (r matches Err(e) && e
                == CctalkTransmissionError::RxDataMalformedLength),
            num_bytes > 4 ==> (r matches Ok(p) && p.wf() && !p.is_finished() && p.received()
                == Seq::<u8>::empty() && p.elapsed() == 0 && p.interval() == 5 && p.timeout()
                == timeout_ms && p.wanted() == num_bytes),
    {
        if num_bytes <= 4 {
            return Err(CctalkTransmissionError::RxDataMalformedLength);
        }
        Ok(ReadPoll::start(timeout_ms, 5, num_bytes))
    }

    /// The read of up to 260 bytes, waiting 1 ms at a time.
    pub fn for_read_bytes(timeout_ms: u32) -> (r: ReadPoll)
        ensures
            r.wf(),
            !r.is_finished(),
            r.received() == Seq::<u8>::empty(),
            r.elapsed() == 0,
            r.interval() == 1,
            r.timeout() == timeout_ms,
            r.wanted() == 260,
    {
        ReadPoll::start(timeout_ms, 1, 260)
    }

    /// The read of `num_bytes` bytes, waiting 5 ms at a time.
    pub fn for_read_bytes_exact(timeout_ms: u32, num_bytes: usize) -> (r: ReadPoll)
        ensures
            r.wf(),
            !r.is_finished(),
            r.received() == Seq::<u8>::empty(),
            r.elapsed() == 0,
            r.interval() == 5,
            r.timeout() == timeout_ms,
            r.wanted() == num_bytes,
    {
        ReadPoll::start(timeout_ms, 5, num_bytes)
    }

    /// The read of a message of up to 260 bytes, waiting 1 ms at a time.
    pub fn for_read_msg(timeout_ms: u32) -> (r: ReadPoll)
        ensures
            r.wf(),
            !r.is_finished(),
            r.received() == Seq::<u8>::empty(),
            r.elapsed() == 0,
            r.interval() == 1,
            r.timeout() == timeout_ms,
            r.wanted() == 260,
    {
        ReadPoll::start(timeout_ms, 1, 260)
    }

    /// Takes in what the port gave and names what to do next.
    ///
    /// A byte is kept (when fewer than 260 are held); the read is over when `wanted`
    /// bytes are held. When no byte is there, the read waits one interval and is over
    /// once the time waited reaches the timeout. A port error ends the read with
    /// `CctalkSerialReadError`.
    pub fn step(&mut self, event: ReadEvent) -> (action: ReadAction)
        requires
            old(self).wf(),
            !old(self).is_finished(),
        ensures
            final(self).wf(),
            final(self).interval() == old(self).interval(),
            final(self).timeout() == old(self).timeout(),
            final(self).wanted() == old(self).wanted(),
            final(self).is_finished() == !(action is ReadNext || action is Wait),
            event matches ReadEvent::Byte(b) ==> {
                &&& final(self).received() == if old(self).received().len() < 260 {
                    old(self).received().push(b)
                } else {
                    old(self).received()
                }
                &&& final(self).elapsed() == old(self).elapsed()
                &&& action == if final(self).received().len() == old(self).wanted() {
                    ReadAction::Stop
                } else {
                    ReadAction::ReadNext
                }
            },
            event is WouldBlock ==> {
                &&& final(self).received() == old(self).received()
                &&& final(self).elapsed() == old(self).elapsed() + old(self).interval()
                &&& action == if final(self).elapsed() >= old(self).timeout() {
                    ReadAction::WaitThenStop(old(self).interval())
                } else {
                    ReadAction::Wait(old(self).interval())
                }
            },
            event is Failed ==> {
                &&& final(self).received() == old(self).received()
                &&& final(self).elapsed() == old(self).elapsed()
                &&& action == ReadAction::Fail(CctalkTransmissionError::CctalkSerialReadError)
            },
    {
        match event {
            ReadEvent::Byte(b) => {
                let _ = frame_push(&mut self.buf, b);
                if frame_len(&self.buf) == self.wanted {
                    self.finished = true;
                    ReadAction::Stop
                } else {
                    ReadAction::ReadNext
                }
            },
            ReadEvent::WouldBlock => {
                proof {
                    lemma_next_multiple_fits(
                        self.elapsed_ms as int,
                        self.interval_ms as int,
                        u32::MAX as int,
                    );
                }
                self.elapsed_ms = self.elapsed_ms + self.interval_ms;
                if self.elapsed_ms >= self.timeout_ms {
                    self.finished = true;
                    ReadAction::WaitThenStop(self.interval_ms)
                } else {
                    ReadAction::Wait(self.interval_ms)
                }
            },
            ReadEvent::Failed => {
                self.finished = true;
                ReadAction::Fail(CctalkTransmissionError::CctalkSerialReadError)
            },
        }
    }

    /// The bytes received.
    pub fn into_bytes(self) -> (r: heapless::Vec<u8, 260>)
        ensures
            frame_bytes(r) == self.received(),
    {
        self.buf
    }

    /// The message the bytes received form, or why they form none.
    pub fn to_message(&self) -> (r: Result<CctalkMessage, CctalkTransmissionError>)
        ensures
            decode_frame(self.received()) matches Ok(p) ==> (r matches Ok(m) && m
                is Standard8Bit && m@ == p),
            decode_frame(self.received()) matches Err(e) ==> (r matches Err(f) && f
                == CctalkTransmissionError::CctalkMessageError(e)),
    {
        match CctalkMessage::try_from_bytes(frame_as_slice(&self.buf)) {
            Ok(m) => Ok(m),
            Err(e) => Err(CctalkTransmissionError::CctalkMessageError(e)),
        }
    }
}

/// Where a transaction stands.
#[derive(Debug, Clone, Copy, PartialEq, Eq, Structural)]
pub enum Stage {
    /// The frame is to be written.
    Writing,
    /// The echo of the frame is to be read.
    AwaitingEcho,
    /// The answer is to be read.
    AwaitingReply,
    /// The outcome is known.
    Done,
}

/// What happened to the last action of a transfer.
pub enum TransferEvent {
    /// The frame was written out.
    Written,
    /// The echo was read: the message it forms, or why it forms none.
    Echo(Result<CctalkMessage, CctalkTransmissionError>),
    /// The answer was read: the message it forms, or why it forms none.
    Reply(Result<CctalkMessage, CctalkTransmissionError>),
}

/// What to do next in a transfer.
pub enum TransferAction {
    /// Write the frame (`Transfer::frame`) to the port.
    Write,
    /// Read the echo: a message of `num_bytes` bytes (`ReadPoll::for_read_msg_exact`).
    ReadEcho { timeout_ms: u32, num_bytes: usize },
    /// Read the answer (`ReadPoll::for_read_msg`).
    ReadReply { timeout_ms: u32 },
    /// The transfer is over with this outcome.
    Finished(Result<CctalkMessage, CctalkTransmissionError>),
}

/// A transfer: send a message, read back its echo when the line echoes, read the
/// answer and check it. A header-only transfer also asks that the answer be an
/// acknowledgement.
pub struct Transfer {
    msg: CctalkMessage,
    frame: heapless::Vec<u8, 260>,
    echo: bool,
    timeout_ms: u32,
    require_ack: bool,
    stage: Stage,
}

/// The outcome of a transfer given the answer read: a read failure is passed on;
/// an answer that fails its integrity check is `RxDataMalformedChksum`; when an
/// acknowledgement is asked for, any other header is `CctalkFailedToAck`.
pub open spec fn reply_outcome(
    reply: Result<CctalkMessage, CctalkTransmissionError>,
    require_ack: bool,
) -> Result<CctalkMessage, CctalkTransmissionError> {
    match reply {
        Err(e) => Err(e),
        Ok(m) => if integrity_check(m) is Err {
            Err(CctalkTransmissionError::RxDataMalformedChksum)
        } else if require_ack && header_of_code(m@.header) != CcTalkHeader::Ack {
            Err(CctalkTransmissionError::CctalkFailedToAck(header_of_code(m@.header)))
        } else {
            Ok(m)
        },
    }
}

/// A transfer ends well only with the answer that was read, only when that answer
/// passed its integrity check, and, when an acknowledgement was asked for, only
/// when its header is `Ack`; an answer that fails its integrity check always ends
/// it with `RxDataMalformedChksum`.
pub proof fn lemma_successful_transfer_reply_is_checked(
    reply: Result<CctalkMessage, CctalkTransmissionError>,
    require_ack: bool,
)
    ensures
        reply_outcome(reply, require_ack) matches Ok(m) ==> {
            &&& reply matches Ok(r) && r == m
            &&& integrity_check(m) is Ok
            &&& require_ack ==> header_of_code(m@.header) == CcTalkHeader::Ack
        },
        reply matches Ok(m) ==> (integrity_check(m) is Err ==> (reply_outcome(reply, require_ack)
            matches Err(e) && e == CctalkTransmissionError::RxDataMalformedChksum)),
{
}

/// The header of an answer matters only when an acknowledgement is asked for: an
/// answer that passes its integrity check is the outcome of a plain transfer
/// whatever its header, an `Ack` answer that passes is never refused, and a
/// passing answer with another header is refused with that header exactly when an
/// acknowledgement is asked for.
pub proof fn lemma_reply_header_only_matters_for_ack(m: CctalkMessage, require_ack: bool)
    requires
        integrity_check(m) is Ok,
    ensures
        reply_outcome(Ok(m), false) matches Ok(r) && r == m,
        header_of_code(m@.header) == CcTalkHeader::Ack ==> (reply_outcome(Ok(m), require_ack)
            matches Ok(r) && r == m),
        header_of_code(m@.header) != CcTalkHeader::Ack ==> (reply_outcome(Ok(m), true) matches Err(
            e,
        ) && e == CctalkTransmissionError::CctalkFailedToAck(header_of_code(m@.header))),
        reply_outcome(Ok(m), require_ack) is Ok <==> (!require_ack || header_code(
            header_of_code(m@.header),
        ) == 0),
{
}

/// A transfer's outcome is never an error the answer did not call for: a read
/// failure is passed on unchanged.
pub proof fn lemma_reply_read_failure_passed_on(e: CctalkTransmissionError, require_ack: bool)
    ensures
        reply_outcome(Err(e), require_ack) matches Err(f) && f == e,
{
}

/// An echo is accepted exactly when it is a message of the same kind whose frame
/// is byte for byte the frame that was sent.
pub proof fn lemma_echo_matches_same_frame(sent: CctalkMessage, echo: CctalkMessage)
    ensures
        echo_matches(sent, echo) <==> ((sent is CRC16Bit) == (echo is CRC16Bit) && encode_parts(
            sent@,
        ) == encode_parts(echo@)),
{
    crate::message::lemma_encode_injective(sent@, echo@);
}

/// An action ends a transfer with at most one outcome, and a finishing action ends
/// it with the outcome it carries.
pub proof fn lemma_finishes_with_is_the_carried_outcome(
    a: TransferAction,
    o1: Result<CctalkMessage, CctalkTransmissionError>,
    o2: Result<CctalkMessage, CctalkTransmissionError>,
)
    ensures
        finishes_with(a, o1) && finishes_with(a, o2) ==> o1 == o2,
        finishes_with(TransferAction::Finished(o1), o1),
        !finishes_with(TransferAction::Write, o1),
{
}

/// Whether a transfer action ends the transfer with the outcome `out`.
pub open spec fn finishes_with(
    a: TransferAction,
    out: Result<CctalkMessage, CctalkTransmissionError>,
) -> bool {
    a matches TransferAction::Finished(o) && o == out
}

/// Whether an echo is the message that was sent: same kind, same fields.
pub open spec fn echo_matches(sent: CctalkMessage, echo: CctalkMessage) -> bool {
    (sent is CRC16Bit) == (echo is CRC16Bit) && sent@ == echo@
}

impl Transfer {
    /// The message sent.
    pub closed spec fn message(&self) -> CctalkMessage {
        self.msg
    }

    /// Whether the line echoes.
    pub closed spec fn echoes(&self) -> bool {
        self.echo
    }

    /// How long each read waits.
    pub closed spec fn timeout(&self) -> u32 {
        self.timeout_ms
    }

    /// Whether the answer must be an acknowledgement.
    pub closed spec fn requires_ack(&self) -> bool {
        self.require_ack
    }

    /// Where the transfer stands.
    pub closed spec fn stage(&self) -> Stage {
        self.stage
    }

    /// The frame to write: the frame of the message.
    pub closed spec fn frame_view(&self) -> Seq<u8> {
        frame_bytes(self.frame)
    }

    /// The frame of the message is what gets written.
    pub closed spec fn wf(&self) -> bool {
        frame_bytes(self.frame) == encode_parts(self.msg@)
    }

    /// A transfer of `msg`; the first action is to write its frame.
    pub fn start(msg: CctalkMessage, echo: bool, timeout_ms: u32, require_ack: bool) -> (r: (
        Transfer,
        TransferAction,
    ))
        ensures
            r.0.wf(),
            r.0.message() == msg,
            r.0.echoes() == echo,
            r.0.timeout() == timeout_ms,
            r.0.requires_ack() == require_ack,
            r.0.stage() == Stage::Writing,
            r.1 is Write,
    {
        let frame = match msg.try_to_bytes() {
            Ok(b) => b,
            Err(_) => frame_new(),
        };
        (Transfer { msg, frame, echo, timeout_ms, require_ack, stage: Stage::Writing }, TransferAction::Write)
    }

    /// The transfer of a message to `addr` from the host with `header` and no data,
    /// answered by an acknowledgement; without a timeout, `DEFAULT_TIMEOUT_MS`.
    pub fn header_only(addr: u8, header: CcTalkHeader, timeout_ms: Option<u32>, echo: bool) -> (r:
        (Transfer, TransferAction))
        ensures
            r.0.wf(),
            r.0.message() is Standard8Bit,
            r.0.message()@ == new_8bit_parts(
                addr,
                MASTER_ADDR,
                crate::headers::header_code(header),
                Seq::<u8>::empty(),
            ),
            r.0.echoes() == echo,
            r.0.timeout() == match timeout_ms {
                Some(t) => t,
                None => DEFAULT_TIMEOUT_MS,
            },
            r.0.requires_ack(),
            r.0.stage() == Stage::Writing,
            r.1 is Write,
    {
        let msg = CctalkMessage::new(addr, MASTER_ADDR, header, payload_new());
        let t = match timeout_ms {
            Some(t) => t,
            None => DEFAULT_TIMEOUT_MS,
        };
        Transfer::start(msg, echo, t, true)
    }

    /// The bytes to write: the frame of the message.
    pub fn frame(&self) -> (r: &[u8])
        requires
            self.wf(),
        ensures
            r@ == self.frame_view(),
            r@ == encode_parts(self.message()@),
    {
        frame_as_slice(&self.frame)
    }

    /// Takes in what happened and names what to do next.
    ///
    /// After the write, the echo is read when the line echoes, else the answer. An
    /// echo that cannot be read or is not the message sent ends the transfer with
    /// `FailedToReciveEcho`. The answer read ends it as `reply_outcome` says.
    pub fn step(&mut self, event: TransferEvent) -> (action: TransferAction)
        requires
            old(self).wf(),
            old(self).stage() == Stage::Writing ==> event is Written,
            old(self).stage() == Stage::AwaitingEcho ==> event is Echo,
            old(self).stage() == Stage::AwaitingReply ==> event is Reply,
            old(self).stage() != Stage::Done,
        ensures
            final(self).wf(),
            final(self).message() == old(self).message(),
            final(self).echoes() == old(self).echoes(),
            final(self).timeout() == old(self).timeout(),
            final(self).requires_ack() == old(self).requires_ack(),
            final(self).frame_view() == old(self).frame_view(),
            final(self).stage() == Stage::Done <==> action is Finished,
            old(self).stage() == Stage::Writing ==> if old(self).echoes() {
                &&& final(self).stage() == Stage::AwaitingEcho
                &&& action matches TransferAction::ReadEcho { timeout_ms, num_bytes }
                &&& timeout_ms == old(self).timeout()
                &&& num_bytes == old(self).frame_view().len()
            } else {
                &&& final(self).stage() == Stage::AwaitingReply
                &&& action matches TransferAction::ReadReply { timeout_ms }
                &&& timeout_ms == old(self).timeout()
            },
            event matches TransferEvent::Echo(r) ==> if r matches Ok(m) && echo_matches(
                old(self).message(),
                m,
            ) {
                &&& final(self).stage() == Stage::AwaitingReply
                &&& action matches TransferAction::ReadReply { timeout_ms }
                &&& timeout_ms == old(self).timeout()
            } else {
                finishes_with(action, Err(CctalkTransmissionError::FailedToReciveEcho))
            },
            event matches TransferEvent::Reply(r) ==> finishes_with(
                action,
                reply_outcome(r, old(self).requires_ack()),
            ),
    {
        match event {
            TransferEvent::Written => {
                if self.echo {
                    self.stage = Stage::AwaitingEcho;
                    TransferAction::ReadEcho {
                        timeout_ms: self.timeout_ms,
                        num_bytes: frame_len(&self.frame),
                    }
                } else {
                    self.stage = Stage::AwaitingReply;
                    TransferAction::ReadReply { timeout_ms: self.timeout_ms }
                }
            },
            TransferEvent::Echo(r) => match r {
                Ok(rx_msg) => {
                    if rx_msg.same_as(&self.msg) {
                        self.stage = Stage::AwaitingReply;
                        TransferAction::ReadReply { timeout_ms: self.timeout_ms }
                    } else {
                        self.stage = Stage::Done;
                        TransferAction::Finished(Err(CctalkTransmissionError::FailedToReciveEcho))
                    }
                },
                Err(_) => {
                    self.stage = Stage::Done;
                    TransferAction::Finished(Err(CctalkTransmissionError::FailedToReciveEcho))
                },
            },
            TransferEvent::Reply(r) => {
                self.stage = Stage::Done;
                match r {
                    Err(e) => TransferAction::Finished(Err(e)),
                    Ok(m) => {
                        if m.chksum_valid().is_err() {
                            TransferAction::Finished(
                                Err(CctalkTransmissionError::RxDataMalformedChksum),
                            )
                        } else {
                            let header = m.header();
                            if self.require_ack && header != CcTalkHeader::Ack {
                                TransferAction::Finished(
                                    Err(CctalkTransmissionError::CctalkFailedToAck(header)),
                                )
                            } else {
                                TransferAction::Finished(Ok(m))
                            }
                        }
                    },
                }
            },
        }
    }
}

/// The address poll: `[0, 0, 1, AddressPoll, 2]`, a broadcast from address 1
/// with header 253 and no data.
pub open spec fn address_poll_parts() -> MessageParts {
    MessageParts { dest: 0, len: 0, src: 1, header: 253, data: Seq::<u8>::empty(), chksum: 2 }
}

/// The address poll message.
pub fn address_poll_message() -> (r: CctalkMessage)
    ensures
        r is Standard8Bit,
        r@ == address_poll_parts(),
{
    let addr_pol: [u8; 5] = [0, 0, 1, 253, 2];
    let frame = addr_pol.as_slice();
    assert(frame@ == seq![0u8, 0, 1, 253, 2]);
    assert(frame@.subrange(4, 4) =~= Seq::<u8>::empty());
    match CctalkMessage::try_from_bytes(frame) {
        Ok(m) => m,
        Err(_) => {
            proof {
                assert(false);
            }
            CctalkMessage::new(0, 1, CcTalkHeader::AddressPoll, payload_new())
        },
    }
}

/// What happened to the last action of an address scan.
pub enum ScanEvent {
    /// The address poll was written out.
    Written,
    /// The echo was read: the message it forms, or why it forms none.
    Echo(Result<CctalkMessage, CctalkTransmissionError>),
    /// The answers were read: the bytes, or why reading failed.
    Bytes(Result<heapless::Vec<u8, 260>, CctalkTransmissionError>),
}

/// What to do next in an address scan.
pub enum ScanAction {
    /// Write the address poll (`AddressScan::frame`) to the port.
    Write,
    /// Read the echo: a message of `num_bytes` bytes (`ReadPoll::for_read_msg_exact`).
    ReadEcho { timeout_ms: u32, num_bytes: usize },
    /// Read whatever the devices answer (`ReadPoll::for_read_bytes`).
    ReadBytes { timeout_ms: u32 },
    /// The scan is over with this outcome.
    Finished(Result<heapless::Vec<u8, 260>, CctalkTransmissionError>),
}

/// Whether a scan action ends the scan with the outcome `out`.
pub open spec fn scan_finishes_with(
    a: ScanAction,
    out: Result<heapless::Vec<u8, 260>, CctalkTransmissionError>,
) -> bool {
    a matches ScanAction::Finished(o) && o == out
}

/// An action ends a scan with at most one outcome, and a finishing action ends it
/// with the outcome it carries.
pub proof fn lemma_scan_finishes_with_is_the_carried_outcome(
    a: ScanAction,
    o1: Result<heapless::Vec<u8, 260>, CctalkTransmissionError>,
    o2: Result<heapless::Vec<u8, 260>, CctalkTransmissionError>,
)
    ensures
        scan_finishes_with(a, o1) && scan_finishes_with(a, o2) ==> o1 == o2,
        scan_finishes_with(ScanAction::Finished(o1), o1),
        !scan_finishes_with(ScanAction::Write, o1),
{
}

/// The address poll is the frame `[0, 0, 1, 253, 2]`: a broadcast from the host
/// with header 253, no data, and a checksum that brings the frame to a multiple
/// of 256.
pub proof fn lemma_address_poll_frame()
    ensures
        encode_parts(address_poll_parts()) == seq![0u8, 0, 1, 253, 2],
        crate::message::byte_sum(encode_parts(address_poll_parts())) % 256 == 0,
        header_of_code(address_poll_parts().header) == CcTalkHeader::AddressPoll,
{
    assert(encode_parts(address_poll_parts()) =~= seq![0u8, 0, 1, 253, 2]);
    crate::message::lemma_checksum_sums_frame_to_zero(address_poll_parts());
    assert(crate::message::byte_sum(Seq::<u8>::empty()) == 0);
}

/// An address scan: broadcast the address poll, read back its echo (within 20 ms)
/// when the line echoes, and collect the bytes the devices answer with.
pub struct AddressScan {
    msg: CctalkMessage,
    frame: heapless::Vec<u8, 260>,
    echo: bool,
    timeout_ms: u32,
    stage: Stage,
}

impl AddressScan {
    /// The message sent.
    pub closed spec fn message(&self) -> CctalkMessage {
        self.msg
    }

    /// Whether the line echoes.
    pub closed spec fn echoes(&self) -> bool {
        self.echo
    }

    /// How long the read of the answers waits.
    pub closed spec fn timeout(&self) -> u32 {
        self.timeout_ms
    }

    /// Where the scan stands.
    pub closed spec fn stage(&self) -> Stage {
        self.stage
    }

    /// The frame to write.
    pub closed spec fn frame_view(&self) -> Seq<u8> {
        frame_bytes(self.frame)
    }

    /// The frame of the address poll is what gets written.
    pub closed spec fn wf(&self) -> bool {
        &&& frame_bytes(self.frame) == encode_parts(self.msg@)
        &&& self.msg is Standard8Bit
        &&& self.msg@ == address_poll_parts()
    }

    /// An address scan; the first action is to write the address poll.
    pub fn start(echo: bool, timeout_ms: u32) -> (r: (AddressScan, ScanAction))
        ensures
            r.0.wf(),
            r.0.message() is Standard8Bit,
            r.0.message()@ == address_poll_parts(),
            r.0.echoes() == echo,
            r.0.timeout() == timeout_ms,
            r.0.stage() == Stage::Writing,
            r.1 is Write,
    {
        let msg = address_poll_message();
        let frame = match msg.try_to_bytes() {
            Ok(b) => b,
            Err(_) => frame_new(),
        };
        (AddressScan { msg, frame, echo, timeout_ms, stage: Stage::Writing }, ScanAction::Write)
    }

    /// The bytes to write: the frame of the address poll.
    pub fn frame(&self) -> (r: &[u8])
        requires
            self.wf(),
        ensures
            r@ == self.frame_view(),
            r@ == encode_parts(address_poll_parts()),
    {
        frame_as_slice(&self.frame)
    }

    /// Takes in what happened and names what to do next.
    ///
    /// After the write, the echo is read when the line echoes, else the answers. An
    /// echo that is not the address poll ends the scan with `FailedToReciveEcho`, one
    /// that cannot be read with `CctalkSerialReadError`. The answers read end it.
    pub fn step(&mut self, event: ScanEvent) -> (action: ScanAction)
        requires
            old(self).wf(),
            old(self).stage() == Stage::Writing ==> event is Written,
            old(self).stage() == Stage::AwaitingEcho ==> event is Echo,
            old(self).stage() == Stage::AwaitingReply ==> event is Bytes,
            old(self).stage() != Stage::Done,
        ensures
            final(self).wf(),
            final(self).message() == old(self).message(),
            final(self).echoes() == old(self).echoes(),
            final(self).timeout() == old(self).timeout(),
            final(self).stage() == Stage::Done <==> action is Finished,
            old(self).stage() == Stage::Writing ==> if old(self).echoes() {
                &&& final(self).stage() == Stage::AwaitingEcho
                &&& action matches ScanAction::ReadEcho { timeout_ms, num_bytes }
                &&& timeout_ms == 20
                &&& num_bytes == 5
            } else {
                &&& final(self).stage() == Stage::AwaitingReply
                &&& action matches ScanAction::ReadBytes { timeout_ms }
                &&& timeout_ms == old(self).timeout()
            },
            event matches ScanEvent::Echo(r) ==> match r {
                Ok(m) => if echo_matches(old(self).message(), m) {
                    &&& final(self).stage() == Stage::AwaitingReply
                    &&& action matches ScanAction::ReadBytes { timeout_ms }
                    &&& timeout_ms == old(self).timeout()
                } else {
                    scan_finishes_with(action, Err(CctalkTransmissionError::FailedToReciveEcho))
                },
                Err(_) => scan_finishes_with(
                    action,
                    Err(CctalkTransmissionError::CctalkSerialReadError),
                ),
            },
            event matches ScanEvent::Bytes(r) ==> scan_finishes_with(action, r),
    {
        match event {
            ScanEvent::Written => {
                if self.echo {
                    self.stage = Stage::AwaitingEcho;
                    ScanAction::ReadEcho { timeout_ms: 20, num_bytes: self.msg.packet_len() }
                } else {
                    self.stage = Stage::AwaitingReply;
                    ScanAction::ReadBytes { timeout_ms: self.timeout_ms }
                }
            },
            ScanEvent::Echo(r) => match r {
                Ok(rx_msg) => {
                    if rx_msg.same_as(&self.msg) {
                        self.stage = Stage::AwaitingReply;
                        ScanAction::ReadBytes { timeout_ms: self.timeout_ms }
                    } else {
                        self.stage = Stage::Done;
                        ScanAction::Finished(Err(CctalkTransmissionError::FailedToReciveEcho))
                    }
                },
                Err(_) => {
                    self.stage = Stage::Done;
                    ScanAction::Finished(Err(CctalkTransmissionError::CctalkSerialReadError))
                },
            },
            ScanEvent::Bytes(r) => {
                self.stage = Stage::Done;
                ScanAction::Finished(r)
            },
        }
    }
}

} // verus!
