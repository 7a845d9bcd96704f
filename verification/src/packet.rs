//! Fire2 frames: the 16-byte header that precedes every Blaze packet, and the
//! packet codec that reads frames out of a receive buffer and writes them into
//! a send buffer.
//!
//! Header layout (all integers big-endian):
//!
//! | bytes  | field                                   |
//! |--------|-----------------------------------------|
//! | 0..4   | length of the contents                  |
//! | 4..6   | length of the metadata                  |
//! | 6..8   | component                               |
//! | 8..10  | command                                 |
//! | 10..13 | message number (24 bits)                |
//! | 13     | message type in the top three bits      |
//! | 14     | options (ignored, written as zero)      |
//! | 15     | reserved (ignored, written as zero)     |
use crate::buffer::{
    buf_advance, buf_byte, buf_extend, buf_freeze, buf_get_u16, buf_get_u8, buf_len, buf_put_u16,
    buf_put_u32, buf_put_u8, buf_split_to, bytes_empty, bytes_from_vec, bytes_len, bytes_mut_view,
    bytes_view, u16_be_bytes, u32_be_bytes,
};
use crate::tdf_out::TdfEncode;
use vstd::prelude::*;

verus! {

/// Size of the frame header in bytes.
pub const HEADER_SIZE: usize = 16;

/// The kind of a packet, stored in the top three bits of header byte 13.
#[derive(Debug, Clone, Copy, PartialEq, Eq, Structural)]
pub enum MessageType {
    Message,
    Reply,
    Notification,
    ErrorReply,
    Ping,
    PingReply,
}

impl MessageType {
    /// The numeric code of a message type.
    pub open spec fn spec_code(self) -> u8 {
        match self {
            MessageType::Message => 0,
            MessageType::Reply => 1,
            MessageType::Notification => 2,
            MessageType::ErrorReply => 3,
            MessageType::Ping => 4,
            MessageType::PingReply => 5,
        }
    }

    /// The message type with a given code, if there is one.
    pub open spec fn spec_from_code(n: u8) -> Option<MessageType> {
        if n == 0 {
            Some(MessageType::Message)
        } else if n == 1 {
            Some(MessageType::Reply)
        } else if n == 2 {
            Some(MessageType::Notification)
        } else if n == 3 {
            Some(MessageType::ErrorReply)
        } else if n == 4 {
            Some(MessageType::Ping)
        } else if n == 5 {
            Some(MessageType::PingReply)
        } else {
            None
        }
    }

    /// The numeric code of this message type.
    pub fn code(&self) -> (c: u8)
        ensures
            c == self.spec_code(),
            c <= 5,
    {
        match self {
            MessageType::Message => 0,
            MessageType::Reply => 1,
            MessageType::Notification => 2,
            MessageType::ErrorReply => 3,
            MessageType::Ping => 4,
            MessageType::PingReply => 5,
        }
    }

    /// The message type with code `n`; `None` for codes above 5.
    pub fn from_u8(n: u8) -> (r: Option<MessageType>)
        ensures
            r == Self::spec_from_code(n),
    {
        match n {
            0 => Some(MessageType::Message),
            1 => Some(MessageType::Reply),
            2 => Some(MessageType::Notification),
            3 => Some(MessageType::ErrorReply),
            4 => Some(MessageType::Ping),
            5 => Some(MessageType::PingReply),
            _ => None,
        }
    }
}

/// The routing part of a frame header.
#[derive(Debug, Clone, Copy, PartialEq, Eq, Structural)]
pub struct Fire2Frame {
    pub component: u16,
    pub command: u16,
    pub msg_num: u32,
    pub msg_type: MessageType,
}

/// The three big-endian bytes of the low 24 bits of a message number.
pub open spec fn msg_num_bytes(n: int) -> Seq<u8> {
    seq![((n / 65536) % 256) as u8, ((n / 256) % 256) as u8, (n % 256) as u8]
}

impl Fire2Frame {
    /// Reads a 24-bit big-endian message number off the front of `src`.
    pub(crate) fn read_msg_num(src: &mut bytes::BytesMut) -> (n: u32)
        requires
            3 <= bytes_mut_view(*old(src)).len(),
        ensures
            n == bytes_mut_view(*old(src))[0] * 65536 + bytes_mut_view(*old(src))[1] * 256
                + bytes_mut_view(*old(src))[2],
            bytes_mut_view(*final(src)) == bytes_mut_view(*old(src)).skip(3),
    {
        let ghost s = bytes_mut_view(*src);
        let b0 = buf_get_u8(src) as u32;
        let b1 = buf_get_u8(src) as u32;
        let b2 = buf_get_u8(src) as u32;
        proof {
            assert(bytes_mut_view(*src) =~= s.skip(3));
        }
        assert((b0 << 16) | (b1 << 8) | b2 == b0 * 65536 + b1 * 256 + b2) by (bit_vector)
            requires
                b0 < 256,
                b1 < 256,
                b2 < 256,
        ;
        (b0 << 16) | (b1 << 8) | b2
    }

    /// Appends the low 24 bits of `msg_num` to `dst`, big-endian.
    pub(crate) fn write_msg_num(dst: &mut bytes::BytesMut, msg_num: u32)
        requires
            bytes_mut_view(*old(dst)).len() + 3 <= isize::MAX,
        ensures
            bytes_mut_view(*final(dst)) == bytes_mut_view(*old(dst)) + msg_num_bytes(
                msg_num as int,
            ),
    {
        let ghost s = bytes_mut_view(*dst);
        let masked = msg_num & 0x00FFFFFF;
        let hi = (masked >> 16) as u8;
        let mid = (masked >> 8) as u8;
        let lo = masked as u8;
        assert(hi == (msg_num / 65536) % 256 && mid == (msg_num / 256) % 256 && lo == msg_num
            % 256) by (bit_vector)
            requires
                masked == msg_num & 0x00FFFFFF,
                hi == (masked >> 16) as u8,
                mid == (masked >> 8) as u8,
                lo == masked as u8,
        ;
        buf_put_u8(dst, hi);
        buf_put_u8(dst, mid);
        buf_put_u8(dst, lo);
        assert(bytes_mut_view(*dst) =~= s + msg_num_bytes(msg_num as int));
    }

    /// The header of a notification: message number zero, type
    /// `Notification`.
    pub fn notification(component: u16, command: u16) -> (f: Self)
        ensures
            f == (Fire2Frame {
                component,
                command,
                msg_num: 0,
                msg_type: MessageType::Notification,
            }),
    {
        Self { component, command, msg_num: 0, msg_type: MessageType::Notification }
    }

    /// The header of the reply to this frame: everything kept, type `Reply`.
    pub fn reply(&self) -> (f: Self)
        ensures
            f == (Fire2Frame { msg_type: MessageType::Reply, ..*self }),
    {
        Self {
            component: self.component,
            command: self.command,
            msg_num: self.msg_num,
            msg_type: MessageType::Reply,
        }
    }
}

/// A packet as the specifications see it: header fields and the two byte
/// sections.
pub struct PacketView {
    pub frame: Fire2Frame,
    pub metadata: Seq<u8>,
    pub contents: Seq<u8>,
}

/// A Blaze packet: header, metadata section and tagged contents.
pub struct Packet {
    pub frame: Fire2Frame,
    pub metadata: bytes::Bytes,
    pub contents: bytes::Bytes,
}

impl View for Packet {
    type V = PacketView;

    open spec fn view(&self) -> PacketView {
        PacketView {
            frame: self.frame,
            metadata: bytes_view(self.metadata),
            contents: bytes_view(self.contents),
        }
    }
}

/// Big-endian 16-bit value at `i`.
pub open spec fn be16_at(s: Seq<u8>, i: int) -> int {
    s[i] * 256 + s[i + 1]
}

/// Big-endian 24-bit value at `i`.
pub open spec fn be24_at(s: Seq<u8>, i: int) -> int {
    s[i] * 65536 + s[i + 1] * 256 + s[i + 2]
}

/// Big-endian 32-bit value at `i`.
pub open spec fn be32_at(s: Seq<u8>, i: int) -> int {
    s[i] * 16777216 + s[i + 1] * 65536 + s[i + 2] * 256 + s[i + 3]
}

/// Length of the metadata section announced by a header.
pub open spec fn announced_metadata_len(buf: Seq<u8>) -> int {
    be16_at(buf, 4)
}

/// Length of the contents section announced by a header.
pub open spec fn announced_contents_len(buf: Seq<u8>) -> int {
    be32_at(buf, 0)
}

/// Size of the whole frame (header and both sections) that a header
/// announces.
pub open spec fn announced_frame_len(buf: Seq<u8>) -> int {
    HEADER_SIZE + announced_metadata_len(buf) + announced_contents_len(buf)
}

/// Whether `buf` starts with a complete frame: a header and as many bytes as
/// it announces.
pub open spec fn holds_complete_frame(buf: Seq<u8>) -> bool {
    buf.len() >= HEADER_SIZE && buf.len() >= announced_frame_len(buf)
}

/// The packet that `Packet::read` takes off the front of `buf`, if any.
pub open spec fn read_result(buf: Seq<u8>) -> Option<PacketView> {
    if !holds_complete_frame(buf) {
        None
    } else {
        match MessageType::spec_from_code((buf[13] / 32) as u8) {
            None => None,
            Some(ty) => Some(
                PacketView {
                    frame: Fire2Frame {
                        component: be16_at(buf, 6) as u16,
                        command: be16_at(buf, 8) as u16,
                        msg_num: be24_at(buf, 10) as u32,
                        msg_type: ty,
                    },
                    metadata: buf.subrange(HEADER_SIZE as int, HEADER_SIZE + announced_metadata_len(buf)),
                    contents: buf.subrange(
                        HEADER_SIZE + announced_metadata_len(buf),
                        announced_frame_len(buf),
                    ),
                },
            ),
        }
    }
}

/// What `Packet::read` leaves in `buf`: everything when no complete frame is
/// there; the bytes after the frame when one was read; and, when the header
/// holds an unknown message type, the bytes after the type byte, since the
/// header fields before it were already taken.
pub open spec fn read_rest(buf: Seq<u8>) -> Seq<u8> {
    if !holds_complete_frame(buf) {
        buf
    } else if MessageType::spec_from_code((buf[13] / 32) as u8) is None {
        buf.skip(14)
    } else {
        buf.skip(announced_frame_len(buf))
    }
}

/// The 16 header bytes that `Packet::write` puts in front of a packet's
/// sections. Lengths and the message number are cut to the widths of their
/// fields, as the writer does.
pub open spec fn header_bytes(p: PacketView) -> Seq<u8> {
    let cl = p.contents.len() % 4294967296;
    let ml = p.metadata.len() % 65536;
    let c = p.frame.component as int;
    let m = p.frame.command as int;
    let n = p.frame.msg_num as int;
    seq![
        ((cl / 16777216) % 256) as u8,
        ((cl / 65536) % 256) as u8,
        ((cl / 256) % 256) as u8,
        (cl % 256) as u8,
        ((ml / 256) % 256) as u8,
        (ml % 256) as u8,
        ((c / 256) % 256) as u8,
        (c % 256) as u8,
        ((m / 256) % 256) as u8,
        (m % 256) as u8,
        ((n / 65536) % 256) as u8,
        ((n / 256) % 256) as u8,
        (n % 256) as u8,
        (p.frame.msg_type.spec_code() * 32) as u8,
        0u8,
        0u8,
    ]
}

/// The bytes that `Packet::write` appends for a packet.
pub open spec fn encode(p: PacketView) -> Seq<u8> {
    header_bytes(p) + p.metadata + p.contents
}

impl Packet {
    /// A packet from its three parts.
    pub fn new(frame: Fire2Frame, metadata: bytes::Bytes, contents: bytes::Bytes) -> (p: Self)
        ensures
            p.frame == frame,
            p.metadata == metadata,
            p.contents == contents,
    {
        Self { frame, metadata, contents }
    }

    /// A packet with the given header and both sections empty.
    pub fn empty(frame: Fire2Frame) -> (p: Self)
        ensures
            p@ == (PacketView { frame, metadata: Seq::empty(), contents: Seq::empty() }),
    {
        Self::new(frame, bytes_empty(), bytes_empty())
    }

    /// The reply to `request` that carries `body` as its contents.
    pub fn reply<T: TdfEncode>(request: &Packet, body: T) -> (p: Self)
        ensures
            p@ == (PacketView {
                frame: Fire2Frame { msg_type: MessageType::Reply, ..request.frame },
                metadata: Seq::empty(),
                contents: body.encoded(),
            }),
    {
        let mut w: Vec<u8> = Vec::new();
        body.serialize(&mut w);
        Self::new(request.frame.reply(), bytes_empty(), bytes_from_vec(w))
    }

    /// The reply to `request` with both sections empty.
    pub fn reply_empty(request: &Packet) -> (p: Self)
        ensures
            p@ == (PacketView {
                frame: Fire2Frame { msg_type: MessageType::Reply, ..request.frame },
                metadata: Seq::empty(),
                contents: Seq::empty(),
            }),
    {
        Self::empty(request.frame.reply())
    }

    /// A notification packet for `component`/`command` that carries `body`.
    pub fn notification<T: TdfEncode>(component: u16, command: u16, body: T) -> (p: Self)
        ensures
            p@ == (PacketView {
                frame: Fire2Frame {
                    component,
                    command,
                    msg_num: 0,
                    msg_type: MessageType::Notification,
                },
                metadata: Seq::empty(),
                contents: body.encoded(),
            }),
    {
        let mut w: Vec<u8> = Vec::new();
        body.serialize(&mut w);
        Self::new(Fire2Frame::notification(component, command), bytes_empty(), bytes_from_vec(w))
    }

    /// Takes one frame off the front of `src`.
    ///
    /// Returns `None` and leaves `src` untouched while it does not yet hold a
    /// complete frame. A frame whose type code is unknown also gives `None`;
    /// the header bytes up to and including the type byte are then gone.
    pub fn read(src: &mut bytes::BytesMut) -> (r: Option<Packet>)
        ensures
            match r {
                Some(p) => read_result(bytes_mut_view(*old(src))) == Some(p@),
                None => read_result(bytes_mut_view(*old(src))) is None,
            },
            bytes_mut_view(*final(src)) == read_rest(bytes_mut_view(*old(src))),
    {
        let ghost buf = bytes_mut_view(*src);
        let len = buf_len(src);
        if len < HEADER_SIZE {
            return None;
        }
        let b0 = buf_byte(src, 0);
        let b1 = buf_byte(src, 1);
        let b2 = buf_byte(src, 2);
        let b3 = buf_byte(src, 3);
        let b4 = buf_byte(src, 4);
        let b5 = buf_byte(src, 5);
        let payload_size: u32 = (b0 as u32) * 16777216 + (b1 as u32) * 65536 + (b2 as u32) * 256
            + (b3 as u32);
        let metadata_size: u16 = (b4 as u16) * 256 + (b5 as u16);
        let total_size: u64 = 16 + (metadata_size as u64) + (payload_size as u64);
        assert(total_size == announced_frame_len(buf));
        if (len as u64) < total_size {
            return None;
        }
        buf_advance(src, 4);
        buf_advance(src, 2);
        let component = buf_get_u16(src);
        let command = buf_get_u16(src);
        let msg_num = Fire2Frame::read_msg_num(src);
        let type_byte = buf_get_u8(src);
        assert(bytes_mut_view(*src) =~= buf.skip(14));
        assert(type_byte >> 5 == type_byte / 32) by (bit_vector);
        let msg_type = match MessageType::from_u8(type_byte >> 5) {
            Some(t) => t,
            None => {
                return None;
            },
        };
        let _options = buf_get_u8(src);
        let _reserved = buf_get_u8(src);
        assert(bytes_mut_view(*src) =~= buf.skip(16));
        let metadata = buf_freeze(buf_split_to(src, metadata_size as usize));
        let contents = buf_freeze(buf_split_to(src, payload_size as usize));
        assert(bytes_view(metadata) =~= buf.subrange(16, 16 + metadata_size));
        assert(bytes_view(contents) =~= buf.subrange(16 + metadata_size, total_size as int));
        assert(bytes_mut_view(*src) =~= buf.skip(total_size as int));
        Some(
            Packet {
                frame: Fire2Frame { component, command, msg_num, msg_type },
                metadata,
                contents,
            },
        )
    }

    /// Appends the frame for this packet to `dst`: header, metadata, contents.
    pub fn write(&self, dst: &mut bytes::BytesMut)
        requires
            bytes_mut_view(*old(dst)).len() + encode(self@).len() <= isize::MAX,
        ensures
            bytes_mut_view(*final(dst)) == bytes_mut_view(*old(dst)) + encode(self@),
    {
        let ghost s = bytes_mut_view(*dst);
        let contents_len = bytes_len(&self.contents);
        let metadata_len = bytes_len(&self.metadata);
        buf_put_u32(dst, ((contents_len as u64) % 0x1_0000_0000) as u32);
        buf_put_u16(dst, (metadata_len % 0x10000) as u16);
        buf_put_u16(dst, self.frame.component);
        buf_put_u16(dst, self.frame.command);
        Fire2Frame::write_msg_num(dst, self.frame.msg_num);
        let code = self.frame.msg_type.code();
        let type_byte = code << 5;
        assert(type_byte == code * 32) by (bit_vector)
            requires
                code <= 5,
                type_byte == code << 5,
        ;
        buf_put_u8(dst, type_byte);
        buf_put_u8(dst, 0);
        buf_put_u8(dst, 0);
        proof {
            let p = self@;
            let cl = (p.contents.len() % 4294967296) as int;
            let ml = (p.metadata.len() % 65536) as int;
            assert(((contents_len as u64) % 0x1_0000_0000) as u32 == cl);
            assert((metadata_len % 0x10000) as u16 == ml);
            assert(u32_be_bytes(cl) + u16_be_bytes(ml) + u16_be_bytes(p.frame.component as int)
                + u16_be_bytes(p.frame.command as int) + msg_num_bytes(p.frame.msg_num as int)
                + seq![type_byte, 0u8, 0u8] =~= header_bytes(p));
        }
        assert(bytes_mut_view(*dst) =~= s + header_bytes(self@));
        buf_extend(dst, &self.metadata);
        buf_extend(dst, &self.contents);
        assert(bytes_mut_view(*dst) =~= s + encode(self@));
    }
}

/// The packet codec of a connection: frames in, frames out.
pub struct PacketCodec;

impl PacketCodec {
    /// Decodes the next frame of `src`; see `Packet::read`.
    pub fn decode(&mut self, src: &mut bytes::BytesMut) -> (r: Option<Packet>)
        ensures
            match r {
                Some(p) => read_result(bytes_mut_view(*old(src))) == Some(p@),
                None => read_result(bytes_mut_view(*old(src))) is None,
            },
            bytes_mut_view(*final(src)) == read_rest(bytes_mut_view(*old(src))),
    {
        Packet::read(src)
    }

    /// Encodes `item` onto `dst`; see `Packet::write`.
    pub fn encode(&mut self, item: Packet, dst: &mut bytes::BytesMut)
        requires
            bytes_mut_view(*old(dst)).len() + encode(item@).len() <= isize::MAX,
        ensures
            bytes_mut_view(*final(dst)) == bytes_mut_view(*old(dst)) + encode(item@),
    {
        item.write(dst)
    }
}

proof fn lemma_be32_bytes(v: int)
    requires
        0 <= v < 4294967296,
    ensures
        ((v / 16777216) % 256) * 16777216 + ((v / 65536) % 256) * 65536 + ((v / 256) % 256) * 256 + (v
            % 256) == v,
{
    let x = v as u32;
    assert(((x / 16777216) % 256) * 16777216 + ((x / 65536) % 256) * 65536 + ((x / 256) % 256) * 256
        + (x % 256) == x) by (bit_vector);
}

proof fn lemma_be24_bytes(v: u32)
    ensures
        ((v / 65536) % 256) * 65536 + ((v / 256) % 256) * 256 + (v % 256) == v % 16777216,
{
    assert(((v / 65536) % 256) * 65536 + ((v / 256) % 256) * 256 + (v % 256) == v % 16777216)
        by (bit_vector);
}

proof fn lemma_be16_bytes(v: u16)
    ensures
        ((v / 256) % 256) * 256 + (v % 256) == v,
{
    assert(((v / 256) % 256) * 256 + (v % 256) == v) by (bit_vector);
}

/// Reading back the frame that `write` produced for a packet gives that
/// packet again, its message number cut to the 24 bits of the header field,
/// and leaves whatever followed the frame in the buffer. Lengths must fit
/// their header fields: metadata below 2^16 bytes, contents below 2^32.
pub proof fn lemma_write_read_roundtrip(p: PacketView, rest: Seq<u8>)
    requires
        p.metadata.len() < 65536,
        p.contents.len() < 4294967296,
    ensures
        read_result(encode(p) + rest) == Some(
            PacketView {
                frame: Fire2Frame { msg_num: (p.frame.msg_num % 16777216) as u32, ..p.frame },
                ..p
            },
        ),
        read_rest(encode(p) + rest) == rest,
{
    let buf = encode(p) + rest;
    let h = header_bytes(p);
    let ml = p.metadata.len() as int;
    let cl = p.contents.len() as int;
    assert(buf =~= h + (p.metadata + p.contents + rest));
    lemma_header_fields(p);
    assert(buf[0] == h[0] && buf[1] == h[1] && buf[2] == h[2] && buf[3] == h[3]);
    assert(buf[4] == h[4] && buf[5] == h[5] && buf[6] == h[6] && buf[7] == h[7]);
    assert(buf[8] == h[8] && buf[9] == h[9] && buf[10] == h[10] && buf[11] == h[11]);
    assert(buf[12] == h[12] && buf[13] == h[13]);
    assert(announced_contents_len(buf) == cl);
    assert(announced_metadata_len(buf) == ml);
    assert(holds_complete_frame(buf));
    assert(buf.subrange(16, 16 + ml) =~= p.metadata);
    assert(buf.subrange(16 + ml, 16 + ml + cl) =~= p.contents);
    assert(buf.skip(16 + ml + cl) =~= rest);
}

/// The header fields decode to the values they were written from.
proof fn lemma_header_fields(p: PacketView)
    requires
        p.metadata.len() < 65536,
        p.contents.len() < 4294967296,
    ensures
        be32_at(header_bytes(p), 0) == p.contents.len(),
        be16_at(header_bytes(p), 4) == p.metadata.len(),
        be16_at(header_bytes(p), 6) == p.frame.component,
        be16_at(header_bytes(p), 8) == p.frame.command,
        be24_at(header_bytes(p), 10) == p.frame.msg_num % 16777216,
        header_bytes(p)[13] / 32 == p.frame.msg_type.spec_code(),
{
    let h = header_bytes(p);
    lemma_be32_bytes(p.contents.len() as int);
    lemma_be16_bytes(p.metadata.len() as u16);
    lemma_be16_bytes(p.frame.component);
    lemma_be16_bytes(p.frame.command);
    lemma_be24_bytes(p.frame.msg_num);
}
proof fn lemma_be32_split(b0: u8, b1: u8, b2: u8, b3: u8)
    ensures
        (b0 * 16777216 + b1 * 65536 + b2 * 256 + b3) / 16777216 % 256 == b0,
        (b0 * 16777216 + b1 * 65536 + b2 * 256 + b3) / 65536 % 256 == b1,
        (b0 * 16777216 + b1 * 65536 + b2 * 256 + b3) / 256 % 256 == b2,
        (b0 * 16777216 + b1 * 65536 + b2 * 256 + b3) % 256 == b3,
        (b0 * 16777216 + b1 * 65536 + b2 * 256 + b3) < 4294967296,
{
    assert((b0 * 16777216 + b1 * 65536 + b2 * 256 + b3) / 16777216 % 256 == b0) by (bit_vector);
    assert((b0 * 16777216 + b1 * 65536 + b2 * 256 + b3) / 65536 % 256 == b1) by (bit_vector);
    assert((b0 * 16777216 + b1 * 65536 + b2 * 256 + b3) / 256 % 256 == b2) by (bit_vector);
    assert((b0 * 16777216 + b1 * 65536 + b2 * 256 + b3) % 256 == b3) by (bit_vector);
}

proof fn lemma_be24_split(b0: u8, b1: u8, b2: u8)
    ensures
        (b0 * 65536 + b1 * 256 + b2) / 65536 % 256 == b0,
        (b0 * 65536 + b1 * 256 + b2) / 256 % 256 == b1,
        (b0 * 65536 + b1 * 256 + b2) % 256 == b2,
        (b0 * 65536 + b1 * 256 + b2) < 16777216,
{
    assert((b0 * 65536 + b1 * 256 + b2) / 65536 % 256 == b0) by (bit_vector);
    assert((b0 * 65536 + b1 * 256 + b2) / 256 % 256 == b1) by (bit_vector);
    assert((b0 * 65536 + b1 * 256 + b2) % 256 == b2) by (bit_vector);
}

proof fn lemma_be16_split(b0: u8, b1: u8)
    ensures
        (b0 * 256 + b1) / 256 % 256 == b0,
        (b0 * 256 + b1) % 256 == b1,
        (b0 * 256 + b1) < 65536,
{
    assert((b0 * 256 + b1) / 256 % 256 == b0) by (bit_vector);
    assert((b0 * 256 + b1) % 256 == b1) by (bit_vector);
}

/// The header that `write` produces for the packet that `read` takes from
/// `buf` repeats the header bytes of `buf`, but for the bits `read` ignores.
#[verifier::rlimit(40)]
proof fn lemma_header_of_read(buf: Seq<u8>)
    requires
        read_result(buf) is Some,
    ensures
        ({
            let h = header_bytes(read_result(buf)->Some_0);
            &&& forall|i: int| 0 <= i < 13 ==> #[trigger] h[i] == buf[i]
            &&& h[13] == (buf[13] / 32) * 32
            &&& h[14] == 0
            &&& h[15] == 0
        }),
{
    let p = read_result(buf)->Some_0;
    let h = header_bytes(p);
    let cl = be32_at(buf, 0);
    let ml = be16_at(buf, 4);
    let c = be16_at(buf, 6);
    let m = be16_at(buf, 8);
    let n = be24_at(buf, 10);
    lemma_be32_split(buf[0], buf[1], buf[2], buf[3]);
    lemma_be16_split(buf[4], buf[5]);
    lemma_be16_split(buf[6], buf[7]);
    lemma_be16_split(buf[8], buf[9]);
    lemma_be24_split(buf[10], buf[11], buf[12]);
    assert(p.contents.len() == cl);
    assert(p.metadata.len() == ml);
    assert(p.frame.component as int == c);
    assert(p.frame.command as int == m);
    assert(p.frame.msg_num as int == n);
    assert(cl % 4294967296 == cl);
    assert(ml % 65536 == ml);
    assert(h[0] == buf[0] && h[1] == buf[1] && h[2] == buf[2] && h[3] == buf[3]);
    assert(h[4] == buf[4] && h[5] == buf[5]);
    assert(h[6] == buf[6] && h[7] == buf[7] && h[8] == buf[8] && h[9] == buf[9]);
    assert(h[10] == buf[10] && h[11] == buf[11] && h[12] == buf[12]);
    assert(p.frame.msg_type.spec_code() == buf[13] / 32);
}

/// A frame that `read` accepts is written back byte for byte by `write`,
/// except for what `read` ignores: the low five bits of the type byte and
/// the options and reserved bytes, which `write` sets to zero. The frame is
/// exactly what `read` consumes.
pub proof fn lemma_read_write_agree(buf: Seq<u8>)
    requires
        read_result(buf) is Some,
    ensures
        ({
            let p = read_result(buf)->Some_0;
            let n = announced_frame_len(buf);
            &&& encode(p).len() == n
            &&& read_rest(buf) == buf.skip(n)
            &&& forall|i: int|
                0 <= i < n && i != 13 && i != 14 && i != 15 ==> #[trigger] encode(p)[i] == buf[i]
            &&& encode(p)[13] == (buf[13] / 32) * 32
            &&& encode(p)[14] == 0
            &&& encode(p)[15] == 0
        }),
{
    let p = read_result(buf)->Some_0;
    let n = announced_frame_len(buf);
    let h = header_bytes(p);
    lemma_header_of_read(buf);
    assert(encode(p) =~= h + buf.subrange(16, n));
    assert forall|i: int| 0 <= i < n && i != 13 && i != 14 && i != 15 implies #[trigger] encode(
        p,
    )[i] == buf[i] by {
        if i < 16 {
            assert(encode(p)[i] == h[i]);
        } else {
            assert(encode(p)[i] == buf.subrange(16, n)[i - 16]);
        }
    }
}
/// The bytes that `write` appends for a packet follow the header layout:
/// the contents length in bytes 0..4, the metadata length in bytes 4..6,
/// the component in 6..8, the command in 8..10 and the low 24 bits of the
/// message number in 10..13, all big-endian; the type code in the top three
/// bits of byte 13 and zero bytes 13 (low bits), 14 and 15; then the
/// metadata, then the contents.
pub proof fn lemma_header_layout(p: PacketView)
    requires
        p.metadata.len() < 65536,
        p.contents.len() < 4294967296,
    ensures
        ({
            let b = encode(p);
            let ml = p.metadata.len() as int;
            let cl = p.contents.len() as int;
            &&& b.len() == 16 + ml + cl
            &&& b[0] * 16777216 + b[1] * 65536 + b[2] * 256 + b[3] == cl
            &&& b[4] * 256 + b[5] == ml
            &&& b[6] * 256 + b[7] == p.frame.component
            &&& b[8] * 256 + b[9] == p.frame.command
            &&& b[10] * 65536 + b[11] * 256 + b[12] == p.frame.msg_num % 16777216
            &&& b[13] == p.frame.msg_type.spec_code() * 32
            &&& b[14] == 0
            &&& b[15] == 0
            &&& b.subrange(16, 16 + ml) == p.metadata
            &&& b.subrange(16 + ml, 16 + ml + cl) == p.contents
        }),
{
    let b = encode(p);
    let h = header_bytes(p);
    let ml = p.metadata.len() as int;
    let cl = p.contents.len() as int;
    lemma_header_fields(p);
    assert(b =~= h + (p.metadata + p.contents));
    assert(b[0] == h[0] && b[1] == h[1] && b[2] == h[2] && b[3] == h[3]);
    assert(b[4] == h[4] && b[5] == h[5] && b[6] == h[6] && b[7] == h[7]);
    assert(b[8] == h[8] && b[9] == h[9] && b[10] == h[10] && b[11] == h[11]);
    assert(b[12] == h[12] && b[13] == h[13] && b[14] == h[14] && b[15] == h[15]);
    let t = p.frame.msg_type.spec_code();
    assert(t <= 5);
    assert(((t * 32) as u8) == t * 32);
    assert(b.subrange(16, 16 + ml) =~= p.metadata);
    assert(b.subrange(16 + ml, 16 + ml + cl) =~= p.contents);
}

/// `read` takes a frame off `buf` exactly when `buf` holds 16 header bytes
/// and the metadata and contents lengths that they announce (bytes 4..6 and
/// 0..4, big-endian), and the top three bits of byte 13 name a message type;
/// the frame's component, command and message number are then bytes 6..8,
/// 8..10 and 10..13, big-endian, its metadata follows the header and its
/// contents follow the metadata.
pub proof fn lemma_read_layout(buf: Seq<u8>)
    ensures
        ({
            let cl = buf[0] * 16777216 + buf[1] * 65536 + buf[2] * 256 + buf[3];
            let ml = buf[4] * 256 + buf[5];
            &&& buf.len() < 16 ==> read_result(buf) is None && read_rest(buf) == buf
            &&& buf.len() >= 16 && buf.len() < 16 + ml + cl ==> read_result(buf) is None
                && read_rest(buf) == buf
            &&& buf.len() >= 16 + ml + cl && buf[13] / 32 > 5 ==> read_result(buf) is None
            &&& buf.len() >= 16 + ml + cl && buf[13] / 32 <= 5 ==> (read_result(buf) matches Some(
                p,
            ) && p.frame.component == buf[6] * 256 + buf[7] && p.frame.command == buf[8] * 256
                + buf[9] && p.frame.msg_num == buf[10] * 65536 + buf[11] * 256 + buf[12]
                && p.frame.msg_type.spec_code() == buf[13] / 32 && p.metadata == buf.subrange(
                16,
                16 + ml,
            ) && p.contents == buf.subrange(16 + ml, 16 + ml + cl) && read_rest(buf) == buf.skip(
                16 + ml + cl,
            ))
        }),
{
    if buf.len() >= 16 {
        lemma_be16_split(buf[6], buf[7]);
        lemma_be16_split(buf[8], buf[9]);
        lemma_be24_split(buf[10], buf[11], buf[12]);
        let cl = buf[0] * 16777216 + buf[1] * 65536 + buf[2] * 256 + buf[3];
        let ml = buf[4] * 256 + buf[5];
        assert(announced_contents_len(buf) == cl);
        assert(announced_metadata_len(buf) == ml);
        assert(be16_at(buf, 6) < 65536 && be16_at(buf, 8) < 65536);
        assert(be24_at(buf, 10) < 16777216);
        if buf[13] / 32 <= 5 {
            let t = MessageType::spec_from_code((buf[13] / 32) as u8);
            assert(t matches Some(x) && x.spec_code() == buf[13] / 32);
        }
    }
}

/// The message type codes: Message 0, Reply 1, Notification 2, ErrorReply 3,
/// Ping 4, PingReply 5. Each code reads back as its type, codes above 5
/// name no type, and no two types share a code.
pub proof fn lemma_message_type_codes(t: MessageType, u: MessageType, n: u8)
    ensures
        MessageType::Message.spec_code() == 0,
        MessageType::Reply.spec_code() == 1,
        MessageType::Notification.spec_code() == 2,
        MessageType::ErrorReply.spec_code() == 3,
        MessageType::Ping.spec_code() == 4,
        MessageType::PingReply.spec_code() == 5,
        MessageType::spec_from_code(t.spec_code()) == Some(t),
        n > 5 ==> MessageType::spec_from_code(n) is None,
        n <= 5 ==> (MessageType::spec_from_code(n) matches Some(x) && x.spec_code() == n),
        t.spec_code() == u.spec_code() ==> t == u,
{
}

/// Reading a message number back from the bytes that `write_msg_num`
/// appended gives its low 24 bits.
pub proof fn lemma_msg_num_roundtrip(n: u32, rest: Seq<u8>)
    ensures
        be24_at(msg_num_bytes(n as int) + rest, 0) == n % 16777216,
{
    let s = msg_num_bytes(n as int) + rest;
    lemma_be24_bytes(n);
    assert(s[0] == msg_num_bytes(n as int)[0]);
    assert(s[1] == msg_num_bytes(n as int)[1]);
    assert(s[2] == msg_num_bytes(n as int)[2]);
}

} // verus!
