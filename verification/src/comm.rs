//! The frame-oriented wire protocol: commands, packet headers, frames and
//! register-operation headers, with their little-endian byte codecs.
//!
//! Every record is byte-packed little-endian.  A packet on the wire is a
//! 7-byte header (magic `"RD"`, version, size), a 19-byte frame (addressing,
//! correlation, command code and one reserved byte) and `size - 19` payload
//! bytes.

use vstd::bytes::{
    spec_u16_from_le_bytes, spec_u16_to_le_bytes, spec_u32_from_le_bytes, spec_u32_to_le_bytes,
    u16_from_le_bytes, u16_to_le_bytes, u32_from_le_bytes, u32_to_le_bytes,
};
use vstd::prelude::*;
use vstd::slice::slice_subrange;

use crate::error::Error;
use crate::io::ByteStream;

verus! {

/// The current version of the protocol
pub const VERSION: u8 = 0x00;

/// The first magic byte of a packet header, `'R'`
pub const MAGIC_0: u8 = 0x52;

/// The second magic byte of a packet header, `'D'`
pub const MAGIC_1: u8 = 0x44;

/// Reply command code
pub const COMMAND_REPLY: u16 = 0x0000;

/// Error command code
pub const COMMAND_ERROR: u16 = 0x0001;

/// Ping command code
pub const COMMAND_PING: u16 = 0x0002;

/// Read shared context command code
pub const COMMAND_READ_SHARED_CONTEXT: u16 = 0x0100;

/// Write shared context command code
pub const COMMAND_WRITE_SHARED_CONTEXT: u16 = 0x0101;

/// Write shared context unconfirmed command code
pub const COMMAND_WRITE_SHARED_CONTEXT_UNCONFIRMED: u16 = 0x0102;

/// The size of the packet header in bytes
pub const PACKET_HEADER_SIZE: usize = 7;

/// The size of the frame header in bytes
pub const FRAME_SIZE: usize = 19;

/// The size of the raw data header in bytes
pub const RAW_DATA_HEADER_SIZE: usize = 12;

/// Standard commands
#[derive(Debug, Clone, Copy, PartialEq, Eq, Structural)]
pub enum Command {
    /// Reply, may carry data
    Reply,
    /// Error, carries error code (u16) and optional UTF-8 message
    Error,
    /// Ping, carries no data
    Ping,
    /// Read shared context, carries a [`RawDataHeader`]
    ReadSharedContext,
    /// Write shared context, carries a [`RawDataHeader`] and the data
    WriteSharedContext,
    /// Write shared context with no reply (push), carries a [`RawDataHeader`] and the data
    WriteSharedContextUnconfirmed,
    /// Custom commands, conventionally starting from 0x8000
    Other(u16),
}

/// The command a 16-bit wire code denotes.
pub open spec fn spec_command_from(value: u16) -> Command {
    if value == COMMAND_REPLY {
        Command::Reply
    } else if value == COMMAND_PING {
        Command::Ping
    } else if value == COMMAND_ERROR {
        Command::Error
    } else if value == COMMAND_READ_SHARED_CONTEXT {
        Command::ReadSharedContext
    } else if value == COMMAND_WRITE_SHARED_CONTEXT {
        Command::WriteSharedContext
    } else if value == COMMAND_WRITE_SHARED_CONTEXT_UNCONFIRMED {
        Command::WriteSharedContextUnconfirmed
    } else {
        Command::Other(value)
    }
}

impl Command {
    /// The 16-bit wire code of this command.
    pub open spec fn code_spec(&self) -> u16 {
        match self {
            Command::Reply => COMMAND_REPLY,
            Command::Ping => COMMAND_PING,
            Command::Error => COMMAND_ERROR,
            Command::ReadSharedContext => COMMAND_READ_SHARED_CONTEXT,
            Command::WriteSharedContext => COMMAND_WRITE_SHARED_CONTEXT,
            Command::WriteSharedContextUnconfirmed => COMMAND_WRITE_SHARED_CONTEXT_UNCONFIRMED,
            Command::Other(value) => *value,
        }
    }

    /// Whether this command is the unique denotation of its code: a standard
    /// variant, or `Other` with a code outside the standard set.  Decoding
    /// never yields a non-canonical command.
    pub open spec fn is_canonical(&self) -> bool {
        self matches Command::Other(v) ==> spec_command_from(*v) == Command::Other(*v)
    }

    /// Get the command code
    pub fn code(self) -> (c: u16)
        ensures
            c == self.code_spec(),
    {
        match self {
            Command::Reply => COMMAND_REPLY,
            Command::Ping => COMMAND_PING,
            Command::Error => COMMAND_ERROR,
            Command::ReadSharedContext => COMMAND_READ_SHARED_CONTEXT,
            Command::WriteSharedContext => COMMAND_WRITE_SHARED_CONTEXT,
            Command::WriteSharedContextUnconfirmed => COMMAND_WRITE_SHARED_CONTEXT_UNCONFIRMED,
            Command::Other(value) => value,
        }
    }
}

impl core::convert::From<u16> for Command {
    /// Decode a 16-bit wire code into the command it denotes.
    fn from(value: u16) -> (r: Self) {
        if value == COMMAND_REPLY {
            Command::Reply
        } else if value == COMMAND_PING {
            Command::Ping
        } else if value == COMMAND_ERROR {
            Command::Error
        } else if value == COMMAND_READ_SHARED_CONTEXT {
            Command::ReadSharedContext
        } else if value == COMMAND_WRITE_SHARED_CONTEXT {
            Command::WriteSharedContext
        } else if value == COMMAND_WRITE_SHARED_CONTEXT_UNCONFIRMED {
            Command::WriteSharedContextUnconfirmed
        } else {
            Command::Other(value)
        }
    }
}

impl vstd::std_specs::convert::FromSpecImpl<u16> for Command {
    open spec fn obeys_from_spec() -> bool {
        true
    }

    open spec fn from_spec(v: u16) -> Command {
        spec_command_from(v)
    }
}

/// Decoding a command's own code yields the command back, for every canonical
/// command.
pub proof fn lemma_command_code_round_trip(c: Command)
    requires
        c.is_canonical(),
    ensures
        spec_command_from(c.code_spec()) == c,
{
}

/// Packet header structure
#[derive(Debug, Clone, Copy, PartialEq, Eq, Structural)]
pub struct PacketHeader {
    /// The protocol version
    pub version: u8,
    /// The size of the packet including the frame and data
    pub size: u32,
}

/// The 7-byte wire form of a packet header: the two magic bytes, the version
/// and the little-endian size.
pub open spec fn spec_packet_header_bytes(h: PacketHeader) -> Seq<u8> {
    seq![MAGIC_0, MAGIC_1, h.version] + spec_u32_to_le_bytes(h.size)
}

impl PacketHeader {
    /// Create a new packet header for the current protocol version
    pub fn new(size: u32) -> (h: Self)
        ensures
            h == (PacketHeader { version: VERSION, size }),
    {
        Self { version: VERSION, size }
    }

    /// Check the protocol version is supported
    pub fn check_version(&self) -> (r: Result<(), Error>)
        ensures
            self.version == VERSION ==> r == Ok::<(), Error>(()),
            self.version != VERSION ==> r == Err::<(), Error>(Error::UnsupportedVersion),
    {
        if self.version != VERSION {
            return Err(Error::UnsupportedVersion);
        }
        Ok(())
    }
}

/// Encode a packet header into its 7-byte wire form.
pub fn encode_packet_header(h: &PacketHeader) -> (r: Vec<u8>)
    ensures
        r@ == spec_packet_header_bytes(*h),
{
    let mut r: Vec<u8> = Vec::new();
    r.push(MAGIC_0);
    r.push(MAGIC_1);
    r.push(h.version);
    let size_bytes = u32_to_le_bytes(h.size);
    crate::push_bytes(&mut r, size_bytes.as_slice());
    proof {
        assert(r@ =~= spec_packet_header_bytes(*h));
    }
    r
}

/// Decode a 7-byte packet header.  The magic bytes are checked here; the
/// version is left for the caller to check, as the reader does.
pub fn decode_packet_header(bytes: &[u8]) -> (r: Result<PacketHeader, Error>)
    requires
        bytes@.len() == PACKET_HEADER_SIZE,
    ensures
        bytes@[0] == MAGIC_0 && bytes@[1] == MAGIC_1 ==> r == Ok::<PacketHeader, Error>(
            PacketHeader {
                version: bytes@[2],
                size: spec_u32_from_le_bytes(bytes@.subrange(3, 7)),
            },
        ),
        !(bytes@[0] == MAGIC_0 && bytes@[1] == MAGIC_1) ==> (r matches Err(e) && e is Packer),
{
    if !(bytes[0] == MAGIC_0 && bytes[1] == MAGIC_1) {
        return Err(Error::Packer(String::new()));
    }
    let size = u32_from_le_bytes(slice_subrange(bytes, 3, 7));
    Ok(PacketHeader { version: bytes[2], size })
}

/// Frame structure
///
/// On the wire a frame occupies 19 bytes: the five little-endian fields below
/// (18 bytes) and one reserved trailing byte, written as zero and ignored by
/// readers.
#[derive(Debug, Clone, Copy, PartialEq, Eq, Structural)]
pub struct Frame {
    /// The source host address (id)
    pub source: u32,
    /// The target host address (id)
    pub target: u32,
    /// The frame id
    pub id: u32,
    /// The id of the frame this is a reply to, 0 if not a reply
    pub in_reply_to: u32,
    /// The command
    pub command: Command,
}

/// The 19-byte wire form of a frame.
pub open spec fn spec_frame_bytes(f: Frame) -> Seq<u8> {
    spec_u32_to_le_bytes(f.source) + spec_u32_to_le_bytes(f.target) + spec_u32_to_le_bytes(f.id)
        + spec_u32_to_le_bytes(f.in_reply_to) + spec_u16_to_le_bytes(f.command.code_spec())
        + seq![0u8]
}

/// The frame denoted by 19 wire bytes; the reserved trailing byte is ignored.
pub open spec fn spec_parse_frame(bytes: Seq<u8>) -> Frame
    recommends
        bytes.len() == FRAME_SIZE,
{
    Frame {
        source: spec_u32_from_le_bytes(bytes.subrange(0, 4)),
        target: spec_u32_from_le_bytes(bytes.subrange(4, 8)),
        id: spec_u32_from_le_bytes(bytes.subrange(8, 12)),
        in_reply_to: spec_u32_from_le_bytes(bytes.subrange(12, 16)),
        command: spec_command_from(spec_u16_from_le_bytes(bytes.subrange(16, 18))),
    }
}

impl Frame {
    /// Convert the frame to a reply frame: source and target swap, the fresh
    /// id is taken, and the original id becomes `in_reply_to`.
    pub fn to_reply(&self, id: u32, error: bool) -> (r: Self)
        ensures
            r == (Frame {
                source: self.target,
                target: self.source,
                id,
                in_reply_to: self.id,
                command: if error {
                    Command::Error
                } else {
                    Command::Reply
                },
            }),
    {
        Self {
            source: self.target,
            target: self.source,
            id,
            in_reply_to: self.id,
            command: if error {
                Command::Error
            } else {
                Command::Reply
            },
        }
    }
}

/// Encode a frame into its 19-byte wire form.
pub fn encode_frame(f: &Frame) -> (r: Vec<u8>)
    ensures
        r@ == spec_frame_bytes(*f),
        r@.len() == FRAME_SIZE,
{
    let mut r = u32_to_le_bytes(f.source);
    let target_bytes = u32_to_le_bytes(f.target);
    crate::push_bytes(&mut r, target_bytes.as_slice());
    let id_bytes = u32_to_le_bytes(f.id);
    crate::push_bytes(&mut r, id_bytes.as_slice());
    let reply_bytes = u32_to_le_bytes(f.in_reply_to);
    crate::push_bytes(&mut r, reply_bytes.as_slice());
    let command_bytes = u16_to_le_bytes(f.command.code());
    crate::push_bytes(&mut r, command_bytes.as_slice());
    r.push(0u8);
    proof {
        assert(r@ =~= spec_frame_bytes(*f));
    }
    r
}

/// Decode a frame from its 19-byte wire form.
pub fn decode_frame(bytes: &[u8]) -> (f: Frame)
    requires
        bytes@.len() == FRAME_SIZE,
    ensures
        f == spec_parse_frame(bytes@),
{
    let source = u32_from_le_bytes(slice_subrange(bytes, 0, 4));
    let target = u32_from_le_bytes(slice_subrange(bytes, 4, 8));
    let id = u32_from_le_bytes(slice_subrange(bytes, 8, 12));
    let in_reply_to = u32_from_le_bytes(slice_subrange(bytes, 12, 16));
    let command = Command::from(u16_from_le_bytes(slice_subrange(bytes, 16, 18)));
    Frame { source, target, id, in_reply_to, command }
}

/// Parsing the wire form of a frame yields the frame back, for every frame
/// whose command is canonical.
pub proof fn lemma_frame_round_trip(f: Frame)
    requires
        f.command.is_canonical(),
    ensures
        spec_parse_frame(spec_frame_bytes(f)) == f,
{
    vstd::bytes::lemma_auto_spec_u32_to_from_le_bytes();
    vstd::bytes::lemma_auto_spec_u16_to_from_le_bytes();
    let bytes = spec_frame_bytes(f);
    assert(bytes.subrange(0, 4) =~= spec_u32_to_le_bytes(f.source));
    assert(bytes.subrange(4, 8) =~= spec_u32_to_le_bytes(f.target));
    assert(bytes.subrange(8, 12) =~= spec_u32_to_le_bytes(f.id));
    assert(bytes.subrange(12, 16) =~= spec_u32_to_le_bytes(f.in_reply_to));
    assert(bytes.subrange(16, 18) =~= spec_u16_to_le_bytes(f.command.code_spec()));
    lemma_command_code_round_trip(f.command);
}

/// Raw data header structure
#[derive(Debug, Clone, Copy, PartialEq, Eq, Structural)]
pub struct RawDataHeader {
    /// The register address
    pub register: u32,
    /// The offset within the register
    pub offset: u32,
    /// The size of the data
    pub size: u32,
}

/// The 12-byte wire form of a raw data header.
pub open spec fn spec_raw_data_header_bytes(h: RawDataHeader) -> Seq<u8> {
    spec_u32_to_le_bytes(h.register) + spec_u32_to_le_bytes(h.offset) + spec_u32_to_le_bytes(h.size)
}

/// The raw data header denoted by 12 wire bytes.
pub open spec fn spec_parse_raw_data_header(bytes: Seq<u8>) -> RawDataHeader
    recommends
        bytes.len() == RAW_DATA_HEADER_SIZE,
{
    RawDataHeader {
        register: spec_u32_from_le_bytes(bytes.subrange(0, 4)),
        offset: spec_u32_from_le_bytes(bytes.subrange(4, 8)),
        size: spec_u32_from_le_bytes(bytes.subrange(8, 12)),
    }
}

/// Encode a raw data header into its 12-byte wire form.
pub fn encode_raw_data_header(h: &RawDataHeader) -> (r: Vec<u8>)
    ensures
        r@ == spec_raw_data_header_bytes(*h),
        r@.len() == RAW_DATA_HEADER_SIZE,
{
    let mut r = u32_to_le_bytes(h.register);
    let offset_bytes = u32_to_le_bytes(h.offset);
    crate::push_bytes(&mut r, offset_bytes.as_slice());
    let size_bytes = u32_to_le_bytes(h.size);
    crate::push_bytes(&mut r, size_bytes.as_slice());
    proof {
        assert(r@ =~= spec_raw_data_header_bytes(*h));
    }
    r
}

/// Decode a raw data header from its 12-byte wire form.
pub fn decode_raw_data_header(bytes: &[u8]) -> (h: RawDataHeader)
    requires
        bytes@.len() == RAW_DATA_HEADER_SIZE,
    ensures
        h == spec_parse_raw_data_header(bytes@),
{
    let register = u32_from_le_bytes(slice_subrange(bytes, 0, 4));
    let offset = u32_from_le_bytes(slice_subrange(bytes, 4, 8));
    let size = u32_from_le_bytes(slice_subrange(bytes, 8, 12));
    RawDataHeader { register, offset, size }
}

/// Parsing the wire form of a raw data header yields the header back.
pub proof fn lemma_raw_data_header_round_trip(h: RawDataHeader)
    ensures
        spec_parse_raw_data_header(spec_raw_data_header_bytes(h)) == h,
{
    vstd::bytes::lemma_auto_spec_u32_to_from_le_bytes();
    let bytes = spec_raw_data_header_bytes(h);
    assert(bytes.subrange(0, 4) =~= spec_u32_to_le_bytes(h.register));
    assert(bytes.subrange(4, 8) =~= spec_u32_to_le_bytes(h.offset));
    assert(bytes.subrange(8, 12) =~= spec_u32_to_le_bytes(h.size));
}

/// The header-and-frame prefix a packet puts on the wire: a header declaring
/// `FRAME_SIZE + data_len` bytes, then the frame.  The payload follows it.
pub open spec fn spec_packet_prefix(f: Frame, data_len: int) -> Seq<u8>
    recommends
        FRAME_SIZE + data_len <= u32::MAX,
{
    spec_packet_header_bytes(
        PacketHeader { version: VERSION, size: (FRAME_SIZE + data_len) as u32 },
    ) + spec_frame_bytes(f)
}

/// The full wire form of a frame with its payload.
pub open spec fn spec_packet_bytes(f: Frame, payload: Seq<u8>) -> Seq<u8>
    recommends
        FRAME_SIZE + payload.len() <= u32::MAX,
{
    spec_packet_prefix(f, payload.len() as int) + payload
}

/// The outcome of reading a packet header and frame from the front of a
/// byte stream.
pub enum PacketParse {
    /// The stream ends before the header or the frame is complete.
    Truncated,
    /// The magic bytes are wrong.
    BadMagic,
    /// The version byte is not the supported one.
    BadVersion,
    /// The declared size is smaller than a frame.
    BadSize,
    /// Header and frame were read: the frame, and the declared payload
    /// length that remains to be read.
    Parsed { frame: Frame, data_len: int },
}

/// What reading a packet header and frame from the front of `s` yields.
pub open spec fn spec_parse_packet_prefix(s: Seq<u8>) -> PacketParse {
    if s.len() < PACKET_HEADER_SIZE {
        PacketParse::Truncated
    } else if !(s[0] == MAGIC_0 && s[1] == MAGIC_1) {
        PacketParse::BadMagic
    } else if s[2] != VERSION {
        PacketParse::BadVersion
    } else {
        let size = spec_u32_from_le_bytes(s.subrange(3, 7));
        if size < FRAME_SIZE {
            PacketParse::BadSize
        } else if s.len() < PACKET_HEADER_SIZE + FRAME_SIZE {
            PacketParse::Truncated
        } else {
            PacketParse::Parsed {
                frame: spec_parse_frame(
                    s.subrange(
                        PACKET_HEADER_SIZE as int,
                        PACKET_HEADER_SIZE as int + FRAME_SIZE as int,
                    ),
                ),
                data_len: size - FRAME_SIZE,
            }
        }
    }
}

/// How many bytes reading a packet header and frame consumes from the front
/// of `s`: nothing when the header cannot be read whole, the header alone
/// when it is rejected or the frame cannot be read whole, both otherwise.
pub open spec fn spec_packet_prefix_consumed(s: Seq<u8>) -> int {
    if s.len() < PACKET_HEADER_SIZE {
        0
    } else if !(s[0] == MAGIC_0 && s[1] == MAGIC_1) || s[2] != VERSION || spec_u32_from_le_bytes(
        s.subrange(3, 7),
    ) < FRAME_SIZE || s.len() < PACKET_HEADER_SIZE + FRAME_SIZE {
        PACKET_HEADER_SIZE as int
    } else {
        PACKET_HEADER_SIZE as int + FRAME_SIZE as int
    }
}

/// Packet structure: a parsed frame plus the declared payload length.  The
/// payload bytes themselves are read and written separately, so a reader can
/// size its payload buffer exactly.
#[derive(Debug, Clone, Copy)]
pub struct Packet {
    frame: Frame,
    data_len: usize,
}

impl Packet {
    /// The packet frame.
    pub closed spec fn frame_spec(&self) -> Frame {
        self.frame
    }

    /// The declared payload length.
    pub closed spec fn data_len_spec(&self) -> usize {
        self.data_len
    }

    /// Create a new packet
    pub fn new(frame: Frame, data_len: usize) -> (p: Self)
        ensures
            p.frame_spec() == frame,
            p.data_len_spec() == data_len,
    {
        Self { frame, data_len }
    }

    /// The packet frame data
    pub fn frame(&self) -> (f: &Frame)
        ensures
            *f == self.frame_spec(),
    {
        &self.frame
    }

    /// The packet data length
    pub fn data_len(&self) -> (n: usize)
        ensures
            n == self.data_len_spec(),
    {
        self.data_len
    }

    /// The full packet size (header + frame + data)
    pub fn size_full(&self) -> (n: usize)
        requires
            PACKET_HEADER_SIZE + FRAME_SIZE + self.data_len_spec() <= usize::MAX,
        ensures
            n == PACKET_HEADER_SIZE + FRAME_SIZE + self.data_len_spec(),
    {
        PACKET_HEADER_SIZE + FRAME_SIZE + self.data_len
    }

    /// Write the packet header and frame to `writer` as one buffer; the
    /// payload is not written (the caller concatenates or writes it next).
    /// Fails with `Overflow` when the declared size does not fit the header's
    /// 32-bit size field.
    pub fn write_to<W: ByteStream>(&self, writer: &mut W) -> (r: Result<(), Error>)
        ensures
            final(writer).inbound() == old(writer).inbound(),
            FRAME_SIZE + self.data_len_spec() > u32::MAX ==> r == Err::<(), Error>(Error::Overflow)
                && final(writer).outbound() == old(writer).outbound(),
            FRAME_SIZE + self.data_len_spec() <= u32::MAX ==> r == Ok::<(), Error>(())
                && final(writer).outbound() == old(writer).outbound() + spec_packet_prefix(
                self.frame_spec(),
                self.data_len_spec() as int,
            ),
    {
        let buffer = match encode_packet_prefix(&self.frame, self.data_len) {
            Ok(b) => b,
            Err(e) => {
                return Err(e);
            },
        };
        writer.write_bytes(buffer.as_slice())?;
        Ok(())
    }

    /// Read a packet header and frame from `reader`: exactly the 7 header
    /// bytes, validated (magic, version, size at least a frame), then
    /// exactly the 19 frame bytes.
    pub fn read_from<R: ByteStream>(reader: &mut R) -> (r: Result<Self, Error>)
        ensures
            final(reader).outbound() == old(reader).outbound(),
            final(reader).inbound() == old(reader).inbound().skip(
                spec_packet_prefix_consumed(old(reader).inbound()),
            ),
            match spec_parse_packet_prefix(old(reader).inbound()) {
                PacketParse::Truncated => r is Err,
                PacketParse::BadMagic => r matches Err(e) && e is Packer,
                PacketParse::BadVersion => r == Err::<Packet, Error>(Error::UnsupportedVersion),
                PacketParse::BadSize => r == Err::<Packet, Error>(Error::InvalidData),
                PacketParse::Parsed { frame, data_len } => r matches Ok(p) && p.frame_spec()
                    == frame && p.data_len_spec() == data_len,
            },
    {
        let header_buffer = match reader.read_exact_bytes(PACKET_HEADER_SIZE) {
            Ok(b) => b,
            Err(e) => {
                return Err(e);
            },
        };
        let header = match decode_packet_header(header_buffer.as_slice()) {
            Ok(h) => h,
            Err(e) => {
                return Err(e);
            },
        };
        proof {
            assert(header_buffer@.subrange(3, 7) =~= old(reader).inbound().subrange(3, 7));
        }
        if header.version != VERSION {
            return Err(Error::UnsupportedVersion);
        }
        if header.size < FRAME_SIZE as u32 {
            return Err(Error::InvalidData);
        }
        let frame_buffer = match reader.read_exact_bytes(FRAME_SIZE) {
            Ok(b) => b,
            Err(e) => {
                return Err(e);
            },
        };
        proof {
            assert(frame_buffer@ =~= old(reader).inbound().subrange(
                PACKET_HEADER_SIZE as int,
                PACKET_HEADER_SIZE as int + FRAME_SIZE as int,
            ));
        }
        let frame = decode_frame(frame_buffer.as_slice());
        let data_len = (header.size as usize) - FRAME_SIZE;
        Ok(Self { frame, data_len })
    }
}

/// Encode the header-and-frame prefix of a packet that declares `data_len`
/// payload bytes.  Fails with `Overflow` when the declared size does not fit
/// the header's 32-bit size field.
pub fn encode_packet_prefix(frame: &Frame, data_len: usize) -> (r: Result<Vec<u8>, Error>)
    ensures
        FRAME_SIZE + data_len > u32::MAX ==> r == Err::<Vec<u8>, Error>(Error::Overflow),
        FRAME_SIZE + data_len <= u32::MAX ==> (r matches Ok(v) && v@ == spec_packet_prefix(
            *frame,
            data_len as int,
        )),
{
    if data_len > (u32::MAX as usize) - FRAME_SIZE {
        return Err(Error::Overflow);
    }
    let header = PacketHeader::new((data_len + FRAME_SIZE) as u32);
    let mut buffer = encode_packet_header(&header);
    let frame_bytes = encode_frame(frame);
    crate::push_bytes(&mut buffer, frame_bytes.as_slice());
    Ok(buffer)
}

/// Round trip law: reading back the wire form of any well-formed frame with
/// any payload yields the same frame and payload.  The prefix parses to the
/// frame with the payload's length, consuming header and frame exactly, and
/// the payload bytes follow.
pub proof fn lemma_packet_round_trip(frame: Frame, payload: Seq<u8>)
    requires
        frame.command.is_canonical(),
        FRAME_SIZE + payload.len() <= u32::MAX,
    ensures
        spec_parse_packet_prefix(spec_packet_bytes(frame, payload)) == (PacketParse::Parsed {
            frame,
            data_len: payload.len() as int,
        }),
        spec_packet_prefix_consumed(spec_packet_bytes(frame, payload)) == PACKET_HEADER_SIZE
            + FRAME_SIZE,
        spec_packet_bytes(frame, payload).skip(PACKET_HEADER_SIZE as int + FRAME_SIZE as int)
            == payload,
{
    vstd::bytes::lemma_auto_spec_u32_to_from_le_bytes();
    vstd::bytes::lemma_auto_spec_u16_to_from_le_bytes();
    let size = (FRAME_SIZE + payload.len()) as u32;
    let hdr = PacketHeader { version: VERSION, size };
    let full = spec_packet_bytes(frame, payload);
    assert(spec_packet_header_bytes(hdr).len() == 7);
    assert(spec_frame_bytes(frame).len() == 19);
    assert(full.len() == 26 + payload.len());
    assert(full.subrange(0, 7) =~= spec_packet_header_bytes(hdr));
    assert(full[0] == MAGIC_0 && full[1] == MAGIC_1 && full[2] == VERSION);
    assert(full.subrange(3, 7) =~= spec_u32_to_le_bytes(size));
    assert(spec_u32_from_le_bytes(full.subrange(3, 7)) == size);
    assert(full.subrange(7, 26) =~= spec_frame_bytes(frame));
    lemma_frame_round_trip(frame);
    assert(full.skip(26) =~= payload);
}

} // verus!
