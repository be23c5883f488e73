//! ccTalk messages and their frames.
//!
//! A frame is `[dest, len, src, header, data.., chksum]`: `len` counts the data
//! bytes, and the checksum makes the sum of all bytes of the frame a multiple of
//! 256. In a CRC-checked frame the source byte carries the low byte of a 16-bit
//! CRC and the last byte its high byte.
use crate::crc::{crc16_xmodem, xmodem_crc};
use crate::errors::CctalkMessageError;
use crate::headers::{header_code, header_name, header_of_code, CcTalkHeader};
use crate::text::{decimal, push_decimal};
use crate::hvec::{
    frame_bytes, frame_new, frame_push, payload_as_slice, payload_bytes, payload_clone,
    payload_len, payload_new, payload_push,
};
use vstd::prelude::*;

verus! {

/// The six fields of a frame, as plain values.
pub struct MessageParts {
    pub dest: u8,
    pub len: u8,
    pub src: u8,
    pub header: u8,
    pub data: Seq<u8>,
    pub chksum: u8,
}

/// The sum of a sequence of bytes.
pub open spec fn byte_sum(s: Seq<u8>) -> nat
    decreases s.len(),
{
    if s.len() == 0 {
        0
    } else {
        byte_sum(s.drop_last()) + s.last() as nat
    }
}

/// The 8-bit checksum of a message: the byte that brings the sum of the frame to
/// a multiple of 256.
pub open spec fn checksum_8bit(dest: u8, len: u8, src: u8, header: u8, data: Seq<u8>) -> u8 {
    ((256 - (dest + len + src + header + byte_sum(data)) % 256) % 256) as u8
}

/// The frame of a message: `[dest, len, src, header, data.., chksum]`.
pub open spec fn encode_parts(p: MessageParts) -> Seq<u8> {
    seq![p.dest, p.len, p.src, p.header] + p.data + seq![p.chksum]
}

/// The message a frame holds, or why it holds none: a frame needs the five framing
/// bytes, and its length byte must count exactly the bytes between header and
/// checksum. The checksum is not looked at.
pub open spec fn decode_frame(b: Seq<u8>) -> Result<MessageParts, CctalkMessageError> {
    if b.len() <= 4 {
        Err(CctalkMessageError::MessageTooShort(b.len() as u8))
    } else if b[1] + 5 != b.len() {
        Err(CctalkMessageError::IncorrectDataLen(((b[1] + 5) % 256) as u8, b.len() as u8))
    } else {
        Ok(
            MessageParts {
                dest: b[0],
                len: b[1],
                src: b[2],
                header: b[3],
                data: b.subrange(4, b.len() - 1),
                chksum: b[b.len() - 1],
            },
        )
    }
}

/// The message `new` builds: the length and checksum are computed from the rest.
pub open spec fn new_8bit_parts(dest: u8, src: u8, header: u8, data: Seq<u8>) -> MessageParts {
    MessageParts {
        dest,
        len: data.len() as u8,
        src,
        header,
        data,
        chksum: checksum_8bit(dest, data.len() as u8, src, header, data),
    }
}

/// The bytes a CRC-checked message's CRC covers: `[dest, len, header, data..]`.
pub open spec fn crc_input(dest: u8, len: u8, header: u8, data: Seq<u8>) -> Seq<u8> {
    seq![dest, len, header] + data
}

/// The low byte of a 16-bit value.
pub open spec fn low_byte(v: u16) -> u8 {
    (v % 256) as u8
}

/// The high byte of a 16-bit value.
pub open spec fn high_byte(v: u16) -> u8 {
    (v / 256) as u8
}

/// The bytes of a list, written in decimal and separated by `, `.
pub open spec fn list_items(s: Seq<u8>) -> Seq<char>
    decreases s.len(),
{
    if s.len() == 0 {
        Seq::<char>::empty()
    } else if s.len() == 1 {
        decimal(s[0] as nat)
    } else {
        list_items(s.drop_last()) + ", "@ + decimal(s.last() as nat)
    }
}

/// A list of bytes in brackets: `[1, 2, 3]`.
pub open spec fn byte_list(s: Seq<u8>) -> Seq<char> {
    "["@ + list_items(s) + "]"@
}

/// The description of a message, one field per line.
pub open spec fn description(m: MessageParts) -> Seq<char> {
    "From: "@ + decimal(m.src as nat) + "\nData Len: "@ + decimal(m.len as nat) + "\nTo: "@
        + decimal(m.dest as nat) + "\nHeader: "@ + header_name(header_of_code(m.header))
        + "\nData: "@ + byte_list(m.data) + "\nChksum: "@ + decimal(m.chksum as nat) + " "@
}

/// Appends the bytes of a payload as a bracketed list.
fn push_byte_list(s: &mut String, data: &heapless::Vec<u8, 255>)
    ensures
        final(s)@ == old(s)@ + byte_list(payload_bytes(*data)),
{
    let n = payload_len(data);
    let bytes = payload_as_slice(data);
    s.append("[");
    let ghost start = s@;
    let mut i: usize = 0;
    while i < n
        invariant
            n == bytes@.len(),
            i <= n,
            s@ == start + list_items(bytes@.take(i as int)),
        decreases n - i,
    {
        let ghost before = s@;
        if i > 0 {
            s.append(", ");
        }
        push_decimal(s, bytes[i]);
        proof {
            let t = bytes@.take(i as int + 1);
            assert(t.drop_last() =~= bytes@.take(i as int));
            assert(t.last() == bytes@[i as int]);
            if i == 0 {
                assert(bytes@.take(0) =~= Seq::<u8>::empty());
                assert(list_items(t) == decimal(bytes@[0] as nat));
                assert(s@ =~= start + list_items(t));
            } else {
                assert(s@ =~= start + list_items(t));
            }
        }
        i = i + 1;
    }
    assert(bytes@.take(n as int) =~= bytes@);
    s.append("]");
}

/// A message with an 8-bit checksum.
#[derive(Debug, PartialEq, PartialOrd)]
pub struct Cctalk8BitChksumMessage {
    pub dest: u8,
    pub len: u8,
    pub src: u8,
    pub header: u8,
    pub data: heapless::Vec<u8, 255>,
    pub chksum: u8,
}

/// A message with a 16-bit CRC in place of the source address and the checksum.
#[derive(Debug, PartialEq, PartialOrd)]
pub struct CctalkCRC16ChksumMessage {
    pub dest: u8,
    pub len: u8,
    pub chksum_lsb: u8,
    pub header: u8,
    pub data: heapless::Vec<u8, 255>,
    pub chksum_msb: u8,
}

impl View for Cctalk8BitChksumMessage {
    type V = MessageParts;

    open spec fn view(&self) -> MessageParts {
        MessageParts {
            dest: self.dest,
            len: self.len,
            src: self.src,
            header: self.header,
            data: payload_bytes(self.data),
            chksum: self.chksum,
        }
    }
}

/// A CRC-checked message seen as the frame fields in wire order: the CRC's low byte
/// stands where the source address stands, its high byte where the checksum stands.
impl View for CctalkCRC16ChksumMessage {
    type V = MessageParts;

    open spec fn view(&self) -> MessageParts {
        MessageParts {
            dest: self.dest,
            len: self.len,
            src: self.chksum_lsb,
            header: self.header,
            data: payload_bytes(self.data),
            chksum: self.chksum_msb,
        }
    }
}

/// The result of a parse, with the message seen by its fields.
pub open spec fn parsed_view(r: Result<Cctalk8BitChksumMessage, CctalkMessageError>) -> Result<
    MessageParts,
    CctalkMessageError,
> {
    match r {
        Ok(m) => Ok(m@),
        Err(e) => Err(e),
    }
}

/// Copies the framing bytes and the payload into a frame buffer, in wire order.
fn write_frame(
    dest: u8,
    len: u8,
    mid: u8,
    header: u8,
    data: &heapless::Vec<u8, 255>,
    last: u8,
) -> (r: heapless::Vec<u8, 260>)
    ensures
        frame_bytes(r) == seq![dest, len, mid, header] + payload_bytes(*data) + seq![last],
{
    let mut buf = frame_new();
    let _ = frame_push(&mut buf, dest);
    let _ = frame_push(&mut buf, len);
    let _ = frame_push(&mut buf, mid);
    let _ = frame_push(&mut buf, header);
    let n = payload_len(data);
    let bytes = payload_as_slice(data);
    let ghost head = seq![dest, len, mid, header];
    assert(frame_bytes(buf) == head);
    let mut i: usize = 0;
    while i < n
        invariant
            n == bytes@.len(),
            n <= 255,
            bytes@ == payload_bytes(*data),
            i <= n,
            head.len() == 4,
            frame_bytes(buf) == head + bytes@.take(i as int),
        decreases n - i,
    {
        assert(frame_bytes(buf).len() == 4 + i);
        let _ = frame_push(&mut buf, bytes[i]);
        assert(bytes@.take(i as int + 1) == bytes@.take(i as int).push(bytes@[i as int]));
        assert((head + bytes@.take(i as int)).push(bytes@[i as int]) == head + bytes@.take(
            i as int + 1,
        ));
        i = i + 1;
    }
    assert(bytes@.take(n as int) == bytes@);
    let _ = frame_push(&mut buf, last);
    buf
}

impl Clone for Cctalk8BitChksumMessage {
    fn clone(&self) -> (r: Self)
        ensures
            r@ == self@,
    {
        Cctalk8BitChksumMessage {
            dest: self.dest,
            len: self.len,
            src: self.src,
            header: self.header,
            data: payload_clone(&self.data),
            chksum: self.chksum,
        }
    }
}

impl Clone for CctalkCRC16ChksumMessage {
    fn clone(&self) -> (r: Self)
        ensures
            r@ == self@,
    {
        CctalkCRC16ChksumMessage {
            dest: self.dest,
            len: self.len,
            chksum_lsb: self.chksum_lsb,
            header: self.header,
            data: payload_clone(&self.data),
            chksum_msb: self.chksum_msb,
        }
    }
}

/// The sum of the payload bytes, computed without overflow.
fn payload_sum(data: &heapless::Vec<u8, 255>) -> (r: u32)
    ensures
        r == byte_sum(payload_bytes(*data)),
        r <= 255 * 255,
{
    let n = payload_len(data);
    let bytes = payload_as_slice(data);
    let mut sum: u32 = 0;
    let mut i: usize = 0;
    while i < n
        invariant
            n == bytes@.len(),
            n <= 255,
            i <= n,
            sum == byte_sum(bytes@.take(i as int)),
            sum <= 255 * i,
        decreases n - i,
    {
        assert(bytes@.take(i as int + 1).drop_last() == bytes@.take(i as int));
        sum = sum + bytes[i] as u32;
        i = i + 1;
    }
    assert(bytes@.take(n as int) == bytes@);
    sum
}

/// The checksum byte for a frame whose other bytes sum to `total`.
fn checksum_for_sum(total: u32) -> (r: u8)
    ensures
        r == ((256 - total % 256) % 256) as u8,
{
    let proto: u32 = total % 256;
    ((256 - proto) % 256) as u8
}

impl Cctalk8BitChksumMessage {
    /// A message to `dest` from `src`; the length and the checksum are computed
    /// from the other fields.
    pub fn new(dest: u8, src: u8, header: CcTalkHeader, data: heapless::Vec<u8, 255>) -> (r:
        Cctalk8BitChksumMessage)
        ensures
            r@ == new_8bit_parts(dest, src, header_code(header), payload_bytes(data)),
            r.data == data,
    {
        let data_len = payload_len(&data) as u8;
        let mut msg = Cctalk8BitChksumMessage {
            dest,
            len: data_len,
            src,
            header: header.to_u8(),
            data,
            chksum: 0x00,
        };
        msg.chksum = msg.calc_chksum();
        msg
    }

    /// Reads a frame `[dest, len, src, header, data.., chksum]`. The checksum is
    /// kept as found; `chksum_valid` checks it.
    pub fn try_from_bytes(data: &[u8]) -> (r: Result<Cctalk8BitChksumMessage, CctalkMessageError>)
        ensures
            parsed_view(r) == decode_frame(data@),
    {
        let packet_len = data.len();
        if packet_len <= 4 {
            return Err(CctalkMessageError::MessageTooShort(packet_len as u8));
        }
        if data[1] as usize + 5 != packet_len {
            return Err(
                CctalkMessageError::IncorrectDataLen(data[1].wrapping_add(5), packet_len as u8),
            );
        }
        let mut payload = payload_new();
        let end = packet_len - 1;
        let mut n: usize = 4;
        while n < end
            invariant
                packet_len == data@.len(),
                end == packet_len - 1,
                data[1] as usize + 5 == packet_len,
                4 <= n <= end,
                payload_bytes(payload) == data@.subrange(4, n as int),
            decreases end - n,
        {
            let _ = payload_push(&mut payload, data[n]);
            assert(data@.subrange(4, n as int + 1) == data@.subrange(4, n as int).push(
                data@[n as int],
            ));
            n = n + 1;
        }
        let rx = Cctalk8BitChksumMessage {
            src: data[2],
            dest: data[0],
            header: data[3],
            data: payload,
            len: data[1],
            chksum: data[packet_len - 1],
        };
        Ok(rx)
    }

    /// The frame of the message. There is always room for it, so this never fails.
    pub fn try_to_bytes(&self) -> (r: Result<heapless::Vec<u8, 260>, CctalkMessageError>)
        ensures
            r is Ok,
            r matches Ok(b) ==> frame_bytes(b) == encode_parts(self@),
    {
        Ok(write_frame(self.dest, self.len, self.src, self.header, &self.data, self.chksum))
    }

    /// The destination address.
    pub fn dest(&self) -> (r: u8)
        ensures
            r == self.dest,
    {
        self.dest
    }

    /// The data bytes.
    pub fn data(&self) -> (r: &heapless::Vec<u8, 255>)
        ensures
            *r == self.data,
    {
        &self.data
    }

    /// The header.
    pub fn header(&self) -> (r: CcTalkHeader)
        ensures
            r == header_of_code(self.header),
    {
        CcTalkHeader::from_u8(self.header)
    }

    /// The number of data bytes held (not the length field).
    pub fn len(&self) -> (r: u8)
        ensures
            r == payload_bytes(self.data).len(),
    {
        payload_len(&self.data) as u8
    }

    /// The number of bytes of the frame: the data bytes and five framing bytes.
    pub fn packet_len(&self) -> (r: usize)
        ensures
            r == payload_bytes(self.data).len() + 5,
    {
        payload_len(&self.data) + 1 + 1 + 1 + 1 + 1
    }

    /// The checksum field.
    pub fn chksum(&self) -> (r: u8)
        ensures
            r == self.chksum,
    {
        self.chksum
    }

    /// A description of the message, one field per line: source, length,
    /// destination, header, data and checksum.
    pub fn describe(&self) -> (r: String)
        ensures
            r@ == description(self@),
    {
        let mut s = String::from_str("From: ");
        push_decimal(&mut s, self.src);
        s.append("\nData Len: ");
        push_decimal(&mut s, self.len);
        s.append("\nTo: ");
        push_decimal(&mut s, self.dest);
        s.append("\nHeader: ");
        let name = CcTalkHeader::from_u8(self.header).name();
        s.append(name.as_str());
        s.append("\nData: ");
        push_byte_list(&mut s, &self.data);
        s.append("\nChksum: ");
        push_decimal(&mut s, self.chksum);
        s.append(" ");
        s
    }

    /// The checksum the other fields call for.
    pub fn calc_chksum(&self) -> (r: u8)
        ensures
            r == checksum_8bit(self.dest, self.len, self.src, self.header, payload_bytes(self.data)),
    {
        let data_sum = payload_sum(&self.data);
        let total = self.dest as u32 + self.len as u32 + self.src as u32 + self.header as u32
            + data_sum;
        checksum_for_sum(total)
    }

    /// The checksum field, when it is the one the other fields call for.
    pub fn chksum_valid(&self) -> (r: Result<u8, CctalkMessageError>)
        ensures
            r is Ok <==> self.chksum == checksum_8bit(
                self.dest,
                self.len,
                self.src,
                self.header,
                payload_bytes(self.data),
            ),
            r matches Ok(c) ==> c == self.chksum,
            r matches Err(e) ==> e == CctalkMessageError::IncorrectChksum(
                self.chksum,
                checksum_8bit(self.dest, self.len, self.src, self.header, payload_bytes(self.data)),
            ),
    {
        let calc_chksum = self.calc_chksum();
        if self.chksum == calc_chksum {
            Ok(self.chksum)
        } else {
            Err(CctalkMessageError::IncorrectChksum(self.chksum, calc_chksum))
        }
    }

    /// The length field, when it counts the data bytes held.
    pub fn len_valid(&self) -> (r: Result<u8, CctalkMessageError>)
        ensures
            r is Ok <==> self.len == payload_bytes(self.data).len(),
            r matches Ok(l) ==> l == self.len,
            r matches Err(e) ==> e == CctalkMessageError::IncorrectDataLen(
                self.len,
                payload_bytes(self.data).len() as u8,
            ),
    {
        let n = payload_len(&self.data) as u8;
        if n == self.len {
            Ok(self.len)
        } else {
            Err(CctalkMessageError::IncorrectDataLen(self.len, n))
        }
    }
}

impl From<CctalkCRC16ChksumMessage> for Cctalk8BitChksumMessage {
    fn from(value: CctalkCRC16ChksumMessage) -> (r: Cctalk8BitChksumMessage) {
        Cctalk8BitChksumMessage {
            dest: value.dest,
            len: value.len,
            src: value.chksum_lsb,
            header: value.header,
            data: value.data,
            chksum: value.chksum_msb,
        }
    }
}

impl vstd::std_specs::convert::FromSpecImpl<CctalkCRC16ChksumMessage> for Cctalk8BitChksumMessage {
    open spec fn obeys_from_spec() -> bool {
        true
    }

    open spec fn from_spec(value: CctalkCRC16ChksumMessage) -> Cctalk8BitChksumMessage {
        Cctalk8BitChksumMessage {
            dest: value.dest,
            len: value.len,
            src: value.chksum_lsb,
            header: value.header,
            data: value.data,
            chksum: value.chksum_msb,
        }
    }
}

impl CctalkCRC16ChksumMessage {
    /// A CRC-checked message to `dest`; the length and the CRC are computed from the
    /// other fields.
    pub fn new(dest: u8, header: CcTalkHeader, data: heapless::Vec<u8, 255>) -> (r:
        CctalkCRC16ChksumMessage)
        ensures
            r.dest == dest,
            r.len == payload_bytes(data).len() as u8,
            r.header == header_code(header),
            r.data == data,
            r.chksum_lsb == low_byte(
                xmodem_crc(
                    crc_input(
                        dest,
                        payload_bytes(data).len() as u8,
                        header_code(header),
                        payload_bytes(data),
                    ),
                ),
            ),
            r.chksum_msb == high_byte(
                xmodem_crc(
                    crc_input(
                        dest,
                        payload_bytes(data).len() as u8,
                        header_code(header),
                        payload_bytes(data),
                    ),
                ),
            ),
    {
        let data_len = payload_len(&data) as u8;
        let mut msg = CctalkCRC16ChksumMessage {
            dest,
            len: data_len,
            chksum_lsb: 0x00,
            header: header.to_u8(),
            data,
            chksum_msb: 0x00,
        };
        let chksum = msg.calc_chksum();
        msg.set_chksum(chksum);
        msg
    }

    /// Stores a CRC: its low byte in `chksum_lsb`, its high byte in `chksum_msb`.
    pub fn set_chksum(&mut self, crc: u16)
        ensures
            final(self).dest == old(self).dest,
            final(self).len == old(self).len,
            final(self).header == old(self).header,
            final(self).data == old(self).data,
            final(self).chksum_lsb == low_byte(crc),
            final(self).chksum_msb == high_byte(crc),
    {
        self.chksum_lsb = (crc % 256) as u8;
        self.chksum_msb = (crc / 256) as u8;
    }

    /// The CRC of `[dest, len, header, data..]`.
    fn calc_chksum(&self) -> (r: u16)
        ensures
            r == xmodem_crc(crc_input(self.dest, self.len, self.header, payload_bytes(self.data))),
    {
        let mut container = frame_new();
        let _ = frame_push(&mut container, self.dest);
        let _ = frame_push(&mut container, self.len);
        let _ = frame_push(&mut container, self.header);
        let n = payload_len(&self.data);
        let bytes = payload_as_slice(&self.data);
        let ghost head = seq![self.dest, self.len, self.header];
        assert(frame_bytes(container) == head);
        let mut i: usize = 0;
        while i < n
            invariant
                n == bytes@.len(),
                n <= 255,
                bytes@ == payload_bytes(self.data),
                i <= n,
                head == seq![self.dest, self.len, self.header],
                frame_bytes(container) == head + bytes@.take(i as int),
            decreases n - i,
        {
            assert(frame_bytes(container).len() == 3 + i);
            let _ = frame_push(&mut container, bytes[i]);
            assert(bytes@.take(i as int + 1) == bytes@.take(i as int).push(bytes@[i as int]));
            assert((head + bytes@.take(i as int)).push(bytes@[i as int]) == head + bytes@.take(
                i as int + 1,
            ));
            i = i + 1;
        }
        assert(bytes@.take(n as int) == bytes@);
        crc16_xmodem(crate::hvec::frame_as_slice(&container))
    }
}

/// A message of either kind.
#[derive(Debug, PartialEq, PartialOrd)]
pub enum CctalkMessage {
    Standard8Bit(Cctalk8BitChksumMessage),
    CRC16Bit(CctalkCRC16ChksumMessage),
}

impl Clone for CctalkMessage {
    fn clone(&self) -> (r: Self)
        ensures
            (r is CRC16Bit) == (self is CRC16Bit),
            r@ == self@,
    {
        match self {
            CctalkMessage::Standard8Bit(m) => CctalkMessage::Standard8Bit(m.clone()),
            CctalkMessage::CRC16Bit(m) => CctalkMessage::CRC16Bit(m.clone()),
        }
    }
}

/// A message seen as the fields of its frame, in wire order.
impl View for CctalkMessage {
    type V = MessageParts;

    open spec fn view(&self) -> MessageParts {
        match self {
            CctalkMessage::Standard8Bit(m) => m@,
            CctalkMessage::CRC16Bit(m) => m@,
        }
    }
}

/// What the integrity check of a message finds. An 8-bit message passes when its
/// checksum is the one its fields call for. A CRC-checked message passes when both
/// CRC bytes match the CRC of its fields; otherwise the error names the high bytes
/// (found, computed) when they differ, and the low bytes when only those differ.
pub open spec fn integrity_check(m: CctalkMessage) -> Result<(), CctalkMessageError> {
    match m {
        CctalkMessage::Standard8Bit(s) => {
            let c = checksum_8bit(s.dest, s.len, s.src, s.header, payload_bytes(s.data));
            if s.chksum == c {
                Ok(())
            } else {
                Err(CctalkMessageError::IncorrectChksum(s.chksum, c))
            }
        },
        CctalkMessage::CRC16Bit(c) => {
            let crc = xmodem_crc(crc_input(c.dest, c.len, c.header, payload_bytes(c.data)));
            if c.chksum_msb != high_byte(crc) {
                Err(CctalkMessageError::IncorrectChksum(c.chksum_msb, high_byte(crc)))
            } else if c.chksum_lsb != low_byte(crc) {
                Err(CctalkMessageError::IncorrectChksum(c.chksum_lsb, low_byte(crc)))
            } else {
                Ok(())
            }
        },
    }
}

/// The result of a parse, with the message seen by its kind and fields.
pub open spec fn parsed_message_view(r: Result<CctalkMessage, CctalkMessageError>) -> Result<
    (bool, MessageParts),
    CctalkMessageError,
> {
    match r {
        Ok(m) => Ok((m is CRC16Bit, m@)),
        Err(e) => Err(e),
    }
}

impl CctalkMessage {
    /// An 8-bit checksum message to `dest` from `src`; the length and the checksum
    /// are computed from the other fields.
    pub fn new(dest: u8, src: u8, header: CcTalkHeader, data: heapless::Vec<u8, 255>) -> (r:
        CctalkMessage)
        ensures
            r is Standard8Bit,
            r@ == new_8bit_parts(dest, src, header_code(header), payload_bytes(data)),
    {
        CctalkMessage::Standard8Bit(Cctalk8BitChksumMessage::new(dest, src, header, data))
    }

    /// Reads a frame as an 8-bit checksum message (see
    /// `Cctalk8BitChksumMessage::try_from_bytes`).
    pub fn try_from_bytes(data: &[u8]) -> (r: Result<CctalkMessage, CctalkMessageError>)
        ensures
            parsed_message_view(r) == match decode_frame(data@) {
                Ok(p) => Ok((false, p)),
                Err(e) => Err(e),
            },
    {
        match Cctalk8BitChksumMessage::try_from_bytes(data) {
            Ok(m) => Ok(CctalkMessage::Standard8Bit(m)),
            Err(e) => Err(e),
        }
    }

    /// The frame of the message. There is always room for it, so this never fails.
    pub fn try_to_bytes(&self) -> (r: Result<heapless::Vec<u8, 260>, CctalkMessageError>)
        ensures
            r is Ok,
            r matches Ok(b) ==> frame_bytes(b) == encode_parts(self@),
    {
        match self {
            CctalkMessage::Standard8Bit(m) => m.try_to_bytes(),
            CctalkMessage::CRC16Bit(m) => Ok(
                write_frame(m.dest, m.len, m.chksum_lsb, m.header, &m.data, m.chksum_msb),
            ),
        }
    }

    /// The header.
    pub fn header(&self) -> (r: CcTalkHeader)
        ensures
            r == header_of_code(self@.header),
    {
        match self {
            CctalkMessage::Standard8Bit(m) => m.header(),
            CctalkMessage::CRC16Bit(m) => CcTalkHeader::from_u8(m.header),
        }
    }

    /// The data bytes.
    pub fn data(&self) -> (r: &heapless::Vec<u8, 255>)
        ensures
            payload_bytes(*r) == self@.data,
    {
        match self {
            CctalkMessage::Standard8Bit(m) => &m.data,
            CctalkMessage::CRC16Bit(m) => &m.data,
        }
    }

    /// The number of bytes of the frame: the data bytes and five framing bytes.
    pub fn packet_len(&self) -> (r: usize)
        ensures
            r == self@.data.len() + 5,
    {
        payload_len(self.data()) + 5
    }

    /// Checks the checksum (8-bit messages) or the CRC (CRC-checked messages).
    pub fn chksum_valid(&self) -> (r: Result<(), CctalkMessageError>)
        ensures
            r == integrity_check(*self),
    {
        match self {
            CctalkMessage::Standard8Bit(m) => match m.chksum_valid() {
                Ok(_) => Ok(()),
                Err(e) => Err(e),
            },
            CctalkMessage::CRC16Bit(m) => {
                let crc = m.calc_chksum();
                let lsb = (crc % 256) as u8;
                let msb = (crc / 256) as u8;
                if m.chksum_msb != msb {
                    Err(CctalkMessageError::IncorrectChksum(m.chksum_msb, msb))
                } else if m.chksum_lsb != lsb {
                    Err(CctalkMessageError::IncorrectChksum(m.chksum_lsb, lsb))
                } else {
                    Ok(())
                }
            },
        }
    }

    /// Whether two messages are of the same kind and have the same fields.
    pub fn same_as(&self, other: &CctalkMessage) -> (r: bool)
        ensures
            r == ((self is CRC16Bit) == (other is CRC16Bit) && self@ == other@),
    {
        let kinds_match = match (self, other) {
            (CctalkMessage::Standard8Bit(_), CctalkMessage::Standard8Bit(_)) => true,
            (CctalkMessage::CRC16Bit(_), CctalkMessage::CRC16Bit(_)) => true,
            _ => false,
        };
        if !kinds_match {
            return false;
        }
        let a = match self {
            CctalkMessage::Standard8Bit(m) => write_frame(
                m.dest,
                m.len,
                m.src,
                m.header,
                &m.data,
                m.chksum,
            ),
            CctalkMessage::CRC16Bit(m) => write_frame(
                m.dest,
                m.len,
                m.chksum_lsb,
                m.header,
                &m.data,
                m.chksum_msb,
            ),
        };
        let b = match other {
            CctalkMessage::Standard8Bit(m) => write_frame(
                m.dest,
                m.len,
                m.src,
                m.header,
                &m.data,
                m.chksum,
            ),
            CctalkMessage::CRC16Bit(m) => write_frame(
                m.dest,
                m.len,
                m.chksum_lsb,
                m.header,
                &m.data,
                m.chksum_msb,
            ),
        };
        let r = bytes_equal(crate::hvec::frame_as_slice(&a), crate::hvec::frame_as_slice(&b));
        proof {
            lemma_encode_injective(self@, other@);
        }
        r
    }
}

/// Whether two byte slices hold the same bytes.
pub(crate) fn bytes_equal(a: &[u8], b: &[u8]) -> (r: bool)
    ensures
        r == (a@ == b@),
{
    if a.len() != b.len() {
        return false;
    }
    let n = a.len();
    let mut i: usize = 0;
    while i < n
        invariant
            n == a@.len(),
            n == b@.len(),
            i <= n,
            forall|j: int| 0 <= j < i ==> a@[j] == b@[j],
        decreases n - i,
    {
        if a[i] != b[i] {
            return false;
        }
        i = i + 1;
    }
    assert(a@ =~= b@);
    true
}

/// Two messages with the same frame have the same fields.
pub proof fn lemma_encode_injective(p: MessageParts, q: MessageParts)
    ensures
        encode_parts(p) == encode_parts(q) <==> p == q,
{
    if encode_parts(p) == encode_parts(q) {
        let e = encode_parts(p);
        assert(p.data =~= e.subrange(4, e.len() - 1));
        assert(q.data =~= encode_parts(q).subrange(4, encode_parts(q).len() - 1));
        assert(e[0] == p.dest && encode_parts(q)[0] == q.dest);
        assert(e[1] == p.len && encode_parts(q)[1] == q.len);
        assert(e[2] == p.src && encode_parts(q)[2] == q.src);
        assert(e[3] == p.header && encode_parts(q)[3] == q.header);
        assert(e[e.len() - 1] == p.chksum);
        assert(encode_parts(q)[encode_parts(q).len() - 1] == q.chksum);
    }
}

/// The sum of two byte sequences laid end to end is the sum of their sums.
pub proof fn lemma_byte_sum_concat(a: Seq<u8>, b: Seq<u8>)
    ensures
        byte_sum(a + b) == byte_sum(a) + byte_sum(b),
    decreases b.len(),
{
    if b.len() == 0 {
        assert(a + b =~= a);
    } else {
        lemma_byte_sum_concat(a, b.drop_last());
        assert((a + b).drop_last() =~= a + b.drop_last());
        assert((a + b).last() == b.last());
    }
}

/// Reading the frame of a message gives the message back, whenever its length
/// field counts its data bytes.
pub proof fn lemma_frame_roundtrip(p: MessageParts)
    requires
        p.data.len() == p.len,
    ensures
        decode_frame(encode_parts(p)) is Ok,
        decode_frame(encode_parts(p))->Ok_0 == p,
{
    let e = encode_parts(p);
    assert(e.len() == p.data.len() + 5);
    assert(e[1] == p.len);
    assert(e.subrange(4, e.len() - 1) =~= p.data);
}

/// A frame that reads as a message is exactly that message's frame.
pub proof fn lemma_parse_roundtrip(b: Seq<u8>)
    ensures
        decode_frame(b) is Ok ==> encode_parts(decode_frame(b)->Ok_0) == b,
        decode_frame(b) is Ok ==> (decode_frame(b)->Ok_0).data.len() == (decode_frame(
            b,
        )->Ok_0).len,
{
    if decode_frame(b) is Ok {
        let p = decode_frame(b)->Ok_0;
        assert(encode_parts(p) =~= b);
    }
}

/// A message built by `new` has a length field that counts its data and the
/// checksum its fields call for.
pub proof fn lemma_new_is_valid(dest: u8, src: u8, header: u8, data: Seq<u8>)
    requires
        data.len() <= 255,
    ensures
        new_8bit_parts(dest, src, header, data).dest == dest,
        new_8bit_parts(dest, src, header, data).src == src,
        new_8bit_parts(dest, src, header, data).header == header,
        new_8bit_parts(dest, src, header, data).data == data,
        byte_sum(encode_parts(new_8bit_parts(dest, src, header, data))) % 256 == 0,
        new_8bit_parts(dest, src, header, data).len == data.len(),
        new_8bit_parts(dest, src, header, data).chksum == checksum_8bit(
            dest,
            new_8bit_parts(dest, src, header, data).len,
            src,
            header,
            data,
        ),
{
    lemma_checksum_sums_frame_to_zero(new_8bit_parts(dest, src, header, data));
}

/// A checksum is the one a message's fields call for exactly when all the bytes
/// of its frame sum to a multiple of 256.
pub proof fn lemma_checksum_sums_frame_to_zero(p: MessageParts)
    ensures
        p.chksum == checksum_8bit(p.dest, p.len, p.src, p.header, p.data) <==> byte_sum(
            encode_parts(p),
        ) % 256 == 0,
{
    let head = seq![p.dest, p.len, p.src, p.header];
    lemma_byte_sum_concat(head, p.data);
    lemma_byte_sum_concat(head + p.data, seq![p.chksum]);
    assert(encode_parts(p) == (head + p.data) + seq![p.chksum]);
    reveal_with_fuel(byte_sum, 5);
    assert(byte_sum(seq![p.chksum]) == p.chksum) by {
        assert(seq![p.chksum].drop_last() =~= Seq::<u8>::empty());
    }
    assert(byte_sum(head) == p.dest + p.len + p.src + p.header) by {
        assert(head.drop_last() =~= seq![p.dest, p.len, p.src]);
        assert(head.drop_last().drop_last() =~= seq![p.dest, p.len]);
        assert(head.drop_last().drop_last().drop_last() =~= seq![p.dest]);
        assert(head.drop_last().drop_last().drop_last().drop_last() =~= Seq::<u8>::empty());
    }
    let total = p.dest + p.len + p.src + p.header + byte_sum(p.data);
    assert(byte_sum(encode_parts(p)) == total + p.chksum);
    let c = ((256 - total % 256) % 256) as u8;
    assert(((256 - total % 256) % 256) < 256);
    assert(c == (256 - total % 256) % 256);
    assert((total + c) % 256 == 0) by (nonlinear_arith)
        requires
            c == (256 - total % 256) % 256,
            total >= 0,
    ;
    assert((total + p.chksum) % 256 == 0 ==> p.chksum == c) by (nonlinear_arith)
        requires
            c == (256 - total % 256) % 256,
            total >= 0,
            0 <= p.chksum < 256,
    ;
}

/// Turning a CRC-checked message into an 8-bit one keeps every byte of its frame.
pub proof fn lemma_crc_conversion_keeps_frame(m: CctalkCRC16ChksumMessage)
    ensures
        encode_parts(
            <Cctalk8BitChksumMessage as vstd::std_specs::convert::FromSpec<
                CctalkCRC16ChksumMessage,
            >>::from_spec(m)@,
        ) == encode_parts(m@),
{
}

/// The CRC of a CRC-checked message covers exactly its destination, length and
/// header bytes followed by every data byte, in that order: the bytes of its frame
/// without the two CRC bytes.
pub proof fn lemma_crc_covers_header_and_data(dest: u8, len: u8, header: u8, data: Seq<u8>)
    ensures
        crc_input(dest, len, header, data).len() == data.len() + 3,
        crc_input(dest, len, header, data)[0] == dest,
        crc_input(dest, len, header, data)[1] == len,
        crc_input(dest, len, header, data)[2] == header,
        forall|i: int|
            0 <= i < data.len() ==> #[trigger] crc_input(dest, len, header, data)[i + 3] == data[i],
        crc_input(dest, len, header, data) == seq![dest, len, header] + data,
{
}

/// The bytes a CRC covers are the frame's bytes with the CRC's two bytes (the
/// source slot and the last byte) taken out.
pub proof fn lemma_crc_input_is_frame_without_crc(p: MessageParts)
    ensures
        crc_input(p.dest, p.len, p.header, p.data) == encode_parts(p).remove(2).drop_last(),
{
    assert(crc_input(p.dest, p.len, p.header, p.data) =~= encode_parts(p).remove(2).drop_last());
}

/// A 16-bit value is its low byte plus 256 times its high byte.
pub proof fn lemma_low_high_bytes(v: u16)
    ensures
        low_byte(v) as int + 256 * high_byte(v) as int == v as int,
        low_byte(v) < 256,
{
}

/// A CRC-checked message passes its integrity check exactly when its two CRC bytes
/// are the low and high bytes of the CRC-16/XMODEM of `[dest, len, header]`
/// followed by all its data bytes; every message `CctalkCRC16ChksumMessage::new`
/// builds therefore passes.
pub proof fn lemma_crc_integrity(c: CctalkCRC16ChksumMessage)
    ensures
        integrity_check(CctalkMessage::CRC16Bit(c)) is Ok <==> {
            let crc = xmodem_crc(seq![c.dest, c.len, c.header] + payload_bytes(c.data));
            &&& c.chksum_lsb as int + 256 * c.chksum_msb as int == crc as int
        },
{
    let crc = xmodem_crc(seq![c.dest, c.len, c.header] + payload_bytes(c.data));
    lemma_crc_covers_header_and_data(c.dest, c.len, c.header, payload_bytes(c.data));
    lemma_low_high_bytes(crc);
    assert(c.chksum_lsb as int + 256 * c.chksum_msb as int == crc as int ==> (c.chksum_lsb
        == low_byte(crc) && c.chksum_msb == high_byte(crc))) by (nonlinear_arith)
        requires
            low_byte(crc) as int + 256 * high_byte(crc) as int == crc as int,
            low_byte(crc) < 256,
            c.chksum_lsb < 256,
    ;
}

/// An 8-bit message passes its integrity check exactly when all the bytes of its
/// frame sum to a multiple of 256.
pub proof fn lemma_8bit_integrity(m: Cctalk8BitChksumMessage)
    ensures
        integrity_check(CctalkMessage::Standard8Bit(m)) is Ok <==> byte_sum(encode_parts(m@))
            % 256 == 0,
{
    lemma_checksum_sums_frame_to_zero(m@);
}

/// A frame reads as a message exactly when it has the five framing bytes and its
/// length byte counts the bytes between header and checksum. A shorter frame is
/// reported with its length; a frame whose length byte is wrong is reported with
/// the frame length the length byte calls for (modulo 256) first and the actual
/// frame length second.
pub proof fn lemma_decode_accepts(b: Seq<u8>)
    ensures
        decode_frame(b) is Ok <==> (b.len() >= 5 && b[1] + 5 == b.len()),
        b.len() <= 4 ==> (decode_frame(b) matches Err(e) && e
            == CctalkMessageError::MessageTooShort(b.len() as u8)),
        decode_frame(b) matches Ok(p) ==> p.data.len() == p.len && p.dest == b[0] && p.src
            == b[2] && p.header == b[3],
        b.len() > 4 && b[1] + 5 != b.len() ==> (decode_frame(b) matches Err(e) && e
            == CctalkMessageError::IncorrectDataLen(((b[1] + 5) % 256) as u8, b.len() as u8)),
{
}

} // verus!
