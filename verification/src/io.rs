//! Stream plumbing: the byte-stream capability the client and server are
//! written against, an in-memory stream, and the buffering half of the
//! datagram adapter.
//!
//! The protocol runs over any transport that delivers bytes reliably and in
//! order.  Such a transport is modelled by [`ByteStream`]: `inbound` is the
//! sequence of bytes the stream will deliver to its reader, `outbound` the
//! sequence handed over for sending.  Transport adapters outside this
//! library are trusted to behave as the capability states; a read that runs
//! past what the transport delivers (a timeout, a closed connection) fails
//! and ends the stream's use.

use vstd::prelude::*;
use vstd::slice::{slice_subrange, slice_to_vec};

use crate::comm::{
    encode_packet_prefix, encode_raw_data_header, spec_packet_bytes, spec_packet_prefix_consumed,
    spec_parse_packet_prefix, spec_raw_data_header_bytes, Command, Frame, Packet, PacketParse,
    RawDataHeader, FRAME_SIZE, PACKET_HEADER_SIZE,
};
use crate::context::RpdoContext;
use crate::error::{decode_error, decodes_to, Error};
use crate::host::{wrap_inc, SyncHost};

verus! {

/// A reliable, ordered, bidirectional byte stream.
///
/// Writes buffer and never fail; an adapter whose transport can fail while
/// sending keeps that failure and reports it from the next read.  Reads
/// deliver the stream's bytes in order and fail exactly where the transport
/// stops delivering.
pub trait ByteStream {
    /// The bytes this stream will deliver to its reader, in order.
    /// Unspecified unless the implementation gives it a meaning.
    open spec fn inbound(&self) -> Seq<u8> {
        vstd::pervasive::arbitrary()
    }

    /// The bytes handed to this stream for sending so far, in order.
    /// Unspecified unless the implementation gives it a meaning.
    open spec fn outbound(&self) -> Seq<u8> {
        vstd::pervasive::arbitrary()
    }

    /// Read exactly `n` bytes.  The read fails if and only if fewer than `n`
    /// bytes remain to be delivered, and then consumes nothing.
    fn read_exact_bytes(&mut self, n: usize) -> (r: Result<Vec<u8>, Error>)
        ensures
            final(self).outbound() == old(self).outbound(),
            n <= old(self).inbound().len() ==> (r matches Ok(v) && v@ == old(self).inbound().take(
                n as int,
            ) && final(self).inbound() == old(self).inbound().skip(n as int)),
            n > old(self).inbound().len() ==> (r is Err && final(self).inbound() == old(
                self,
            ).inbound()),
    ;

    /// Hand `data` over for sending.  The stream buffers; a transport
    /// failure surfaces on a later read.
    fn write_bytes(&mut self, data: &[u8]) -> (r: Result<(), Error>)
        ensures
            r is Ok,
            final(self).inbound() == old(self).inbound(),
            final(self).outbound() == old(self).outbound() + data@,
    ;

    /// Push buffered bytes towards the transport.
    fn flush(&mut self) -> (r: Result<(), Error>)
        ensures
            r is Ok,
            final(self).inbound() == old(self).inbound(),
            final(self).outbound() == old(self).outbound(),
    ;
}

/// An in-memory stream: reads are served from a preloaded input buffer,
/// writes accumulate in an output buffer.
#[derive(Debug)]
pub struct MemoryStream {
    input: Vec<u8>,
    output: Vec<u8>,
}

impl MemoryStream {
    /// Create an empty in-memory stream.
    pub fn new() -> (s: Self)
        ensures
            s.inbound() == Seq::<u8>::empty(),
            s.outbound() == Seq::<u8>::empty(),
    {
        MemoryStream { input: Vec::new(), output: Vec::new() }
    }

    /// Append bytes for the reader to consume.
    pub fn push_input(&mut self, bytes: &[u8])
        ensures
            final(self).inbound() == old(self).inbound() + bytes@,
            final(self).outbound() == old(self).outbound(),
    {
        crate::push_bytes(&mut self.input, bytes);
    }

    /// Take everything written so far, leaving the output empty.
    pub fn take_output(&mut self) -> (r: Vec<u8>)
        ensures
            r@ == old(self).outbound(),
            final(self).outbound() == Seq::<u8>::empty(),
            final(self).inbound() == old(self).inbound(),
    {
        let mut taken: Vec<u8> = Vec::new();
        core::mem::swap(&mut taken, &mut self.output);
        taken
    }
}

impl ByteStream for MemoryStream {
    closed spec fn inbound(&self) -> Seq<u8> {
        self.input@
    }

    closed spec fn outbound(&self) -> Seq<u8> {
        self.output@
    }

    fn read_exact_bytes(&mut self, n: usize) -> (r: Result<Vec<u8>, Error>) {
        if n > self.input.len() {
            return Err(Error::Io("unexpected end of stream".to_owned()));
        }
        let head = slice_to_vec(slice_subrange(self.input.as_slice(), 0, n));
        let rest = self.input.split_off(n);
        self.input = rest;
        proof {
            assert(head@ =~= old(self).inbound().take(n as int));
            assert(self.input@ =~= old(self).inbound().skip(n as int));
        }
        Ok(head)
    }

    fn write_bytes(&mut self, data: &[u8]) -> (r: Result<(), Error>) {
        crate::push_bytes(&mut self.output, data);
        Ok(())
    }

    fn flush(&mut self) -> (r: Result<(), Error>) {
        Ok(())
    }
}

/// The ceiling on the size of a single datagram, and the default MTU.
pub const MAX_UDP_PACKET_SIZE: usize = 16384;

/// The buffering half of a datagram adapter: it makes a datagram socket look
/// like a byte stream under the rule that one logical packet fits in one
/// datagram.  The socket itself lives outside the library; this type holds
/// the byte buffers and enforces the rules: reads are served byte-wise from
/// the last received datagram, writes accumulate until they are taken as one
/// datagram, which must not exceed the MTU and needs a known peer.
#[derive(Debug)]
pub struct DatagramBuffer {
    read_buffer: Vec<u8>,
    write_buffer: Vec<u8>,
    mtu: usize,
    has_peer: bool,
}

impl DatagramBuffer {
    /// The bytes received and not yet consumed.
    pub closed spec fn read_buffered(&self) -> Seq<u8> {
        self.read_buffer@
    }

    /// The bytes written and not yet sent.
    pub closed spec fn write_buffered(&self) -> Seq<u8> {
        self.write_buffer@
    }

    /// The largest datagram this adapter will send.
    pub closed spec fn mtu_spec(&self) -> usize {
        self.mtu
    }

    /// Whether a peer address is known to send to.
    pub closed spec fn peer_known(&self) -> bool {
        self.has_peer
    }

    /// Create an empty buffer with the default MTU and no known peer.
    pub fn new() -> (b: Self)
        ensures
            b.read_buffered() == Seq::<u8>::empty(),
            b.write_buffered() == Seq::<u8>::empty(),
            b.mtu_spec() == MAX_UDP_PACKET_SIZE,
            !b.peer_known(),
    {
        DatagramBuffer {
            read_buffer: Vec::new(),
            write_buffer: Vec::new(),
            mtu: MAX_UDP_PACKET_SIZE,
            has_peer: false,
        }
    }

    /// Set the maximum packet size; an MTU above the ceiling is rejected.
    pub fn try_with_mtu(self, max_packet_size: usize) -> (r: Result<Self, Error>)
        ensures
            max_packet_size <= MAX_UDP_PACKET_SIZE ==> (r matches Ok(b) && b.read_buffered()
                == self.read_buffered() && b.write_buffered() == self.write_buffered()
                && b.mtu_spec() == max_packet_size && b.peer_known() == self.peer_known()),
            max_packet_size > MAX_UDP_PACKET_SIZE ==> (r matches Err(e) && e is Io),
    {
        if max_packet_size > MAX_UDP_PACKET_SIZE {
            return Err(Error::Io("MTU too large".to_owned()));
        }
        Ok(DatagramBuffer { mtu: max_packet_size, ..self })
    }

    /// Record that a peer address is known.
    pub fn set_peer_known(&mut self)
        ensures
            final(self).peer_known(),
            final(self).read_buffered() == old(self).read_buffered(),
            final(self).write_buffered() == old(self).write_buffered(),
            final(self).mtu_spec() == old(self).mtu_spec(),
    {
        self.has_peer = true;
    }

    /// Whether the read buffer is empty, so another datagram must be
    /// received before a read can be served.
    pub fn is_read_empty(&self) -> (b: bool)
        ensures
            b == (self.read_buffered().len() == 0),
    {
        self.read_buffer.is_empty()
    }

    /// Buffer a received datagram; its sender becomes the known peer.
    pub fn load_datagram(&mut self, data: &[u8])
        ensures
            final(self).read_buffered() == old(self).read_buffered() + data@,
            final(self).write_buffered() == old(self).write_buffered(),
            final(self).mtu_spec() == old(self).mtu_spec(),
            final(self).peer_known(),
    {
        crate::push_bytes(&mut self.read_buffer, data);
        self.has_peer = true;
    }

    /// Serve up to `n` bytes from the read buffer.
    pub fn take_from_read(&mut self, n: usize) -> (r: Vec<u8>)
        ensures
            r@ == old(self).read_buffered().take(
                if n <= old(self).read_buffered().len() {
                    n as int
                } else {
                    old(self).read_buffered().len() as int
                },
            ),
            final(self).read_buffered() == old(self).read_buffered().skip(r@.len() as int),
            final(self).write_buffered() == old(self).write_buffered(),
            final(self).mtu_spec() == old(self).mtu_spec(),
            final(self).peer_known() == old(self).peer_known(),
    {
        let served = if n <= self.read_buffer.len() {
            n
        } else {
            self.read_buffer.len()
        };
        let head = slice_to_vec(slice_subrange(self.read_buffer.as_slice(), 0, served));
        let rest = self.read_buffer.split_off(served);
        self.read_buffer = rest;
        proof {
            assert(head@ =~= old(self).read_buffered().take(served as int));
            assert(self.read_buffer@ =~= old(self).read_buffered().skip(served as int));
        }
        head
    }

    /// Buffer bytes to send with the next datagram.
    pub fn queue_write(&mut self, data: &[u8])
        ensures
            final(self).write_buffered() == old(self).write_buffered() + data@,
            final(self).read_buffered() == old(self).read_buffered(),
            final(self).mtu_spec() == old(self).mtu_spec(),
            final(self).peer_known() == old(self).peer_known(),
    {
        crate::push_bytes(&mut self.write_buffer, data);
    }

    /// Take the accumulated write buffer as one datagram.  The buffer is
    /// emptied in every case; the datagram is only handed out when a peer is
    /// known and it fits the MTU.
    pub fn take_datagram(&mut self) -> (r: Result<Vec<u8>, Error>)
        ensures
            final(self).write_buffered() == Seq::<u8>::empty(),
            final(self).read_buffered() == old(self).read_buffered(),
            final(self).mtu_spec() == old(self).mtu_spec(),
            final(self).peer_known() == old(self).peer_known(),
            !old(self).peer_known() ==> (r matches Err(e) && e is Io),
            old(self).peer_known() && old(self).write_buffered().len() > old(self).mtu_spec() ==> (
            r matches Err(e) && e is Io),
            old(self).peer_known() && old(self).write_buffered().len() <= old(self).mtu_spec()
                ==> (r matches Ok(v) && v@ == old(self).write_buffered()),
    {
        let mut data: Vec<u8> = Vec::new();
        core::mem::swap(&mut data, &mut self.write_buffer);
        if !self.has_peer {
            return Err(Error::Io("no peer address".to_owned()));
        }
        if data.len() > self.mtu {
            return Err(Error::Io("data too large".to_owned()));
        }
        Ok(data)
    }
}

/// The outcome of reading one whole packet, payload included, from the
/// front of a byte stream.
pub enum FullPacketParse {
    /// The stream ends before header, frame or payload is complete.
    Truncated,
    /// The magic bytes are wrong.
    BadMagic,
    /// The version byte is not the supported one.
    BadVersion,
    /// The declared size is smaller than a frame.
    BadSize,
    /// One whole packet: its frame and its payload bytes.
    Packet { frame: Frame, payload: Seq<u8> },
}

/// What reading one whole packet from the front of `s` yields.
pub open spec fn spec_parse_full_packet(s: Seq<u8>) -> FullPacketParse {
    match spec_parse_packet_prefix(s) {
        PacketParse::Truncated => FullPacketParse::Truncated,
        PacketParse::BadMagic => FullPacketParse::BadMagic,
        PacketParse::BadVersion => FullPacketParse::BadVersion,
        PacketParse::BadSize => FullPacketParse::BadSize,
        PacketParse::Parsed { frame, data_len } => {
            let body = PACKET_HEADER_SIZE + FRAME_SIZE;
            if s.len() < body + data_len {
                FullPacketParse::Truncated
            } else {
                FullPacketParse::Packet { frame, payload: s.subrange(body as int, body + data_len) }
            }
        },
    }
}

/// How many bytes reading one whole packet consumes from the front of `s`.
pub open spec fn spec_full_packet_consumed(s: Seq<u8>) -> int {
    match spec_parse_packet_prefix(s) {
        PacketParse::Parsed { frame, data_len } => {
            let body = PACKET_HEADER_SIZE + FRAME_SIZE;
            if s.len() < body + data_len {
                body as int
            } else {
                body + data_len
            }
        },
        _ => spec_packet_prefix_consumed(s),
    }
}

/// The outcome of the reply-reading phase of a request with id
/// `request_id`: one whole packet is read and then validated, first for
/// addressing and correlation, then for being an error reply.
pub enum ReplyParse {
    /// The stream ends before the reply is complete.
    Truncated,
    /// The reply header carries the wrong magic bytes.
    BadMagic,
    /// The reply header carries an unsupported version.
    BadVersion,
    /// The reply header declares less than a frame.
    BadSize,
    /// The reply is not addressed to the requester, or answers another id.
    Mismatch,
    /// The reply is an error reply with this payload.
    ErrorReply(Seq<u8>),
    /// The reply carries this payload.
    Payload(Seq<u8>),
}

/// What the reply-reading phase of a request with id `request_id` finds at
/// the front of `s`.
pub open spec fn spec_parse_reply(s: Seq<u8>, request_id: u32) -> ReplyParse {
    match spec_parse_full_packet(s) {
        FullPacketParse::Truncated => ReplyParse::Truncated,
        FullPacketParse::BadMagic => ReplyParse::BadMagic,
        FullPacketParse::BadVersion => ReplyParse::BadVersion,
        FullPacketParse::BadSize => ReplyParse::BadSize,
        FullPacketParse::Packet { frame, payload } => {
            if frame.target != 0 || frame.in_reply_to != request_id {
                ReplyParse::Mismatch
            } else if frame.command == Command::Error {
                ReplyParse::ErrorReply(payload)
            } else {
                ReplyParse::Payload(payload)
            }
        },
    }
}

/// If the data size is not larger than this value, header, frame and payload
/// are concatenated into one buffer before writing; above it, the payload is
/// written separately.
pub const DEFAULT_ZERO_COPY_AFTER: usize = 32768;

/// Write one packet — `frame` with payload `data` — whole onto `stream`.
/// Above the zero-copy threshold the header-and-frame prefix and the payload
/// are written separately and the stream flushed; otherwise they are
/// concatenated into the scratch buffer `buf` and written once, flushing
/// only if `always_flush`.  Fails with `Overflow`, writing nothing, when
/// the payload cannot be framed in the header's 32-bit size field.
fn send_packet<S: ByteStream>(
    stream: &mut S,
    buf: &mut Vec<u8>,
    zero_copy_after: usize,
    always_flush: bool,
    frame: &Frame,
    data: &[u8],
) -> (r: Result<(), Error>)
    ensures
        final(stream).inbound() == old(stream).inbound(),
        FRAME_SIZE + data@.len() <= u32::MAX ==> r == Ok::<(), Error>(())
            && final(stream).outbound() == old(stream).outbound() + spec_packet_bytes(
            *frame,
            data@,
        ),
        FRAME_SIZE + data@.len() > u32::MAX ==> r == Err::<(), Error>(Error::Overflow)
            && final(stream).outbound() == old(stream).outbound(),
{
    if data.len() > zero_copy_after {
        let packet = Packet::new(*frame, data.len());
        packet.write_to(stream)?;
        stream.write_bytes(data)?;
        stream.flush()?;
        proof {
            assert(stream.outbound() =~= old(stream).outbound() + spec_packet_bytes(
                *frame,
                data@,
            ));
        }
    } else {
        let prefix = match encode_packet_prefix(frame, data.len()) {
            Ok(p) => p,
            Err(e) => {
                return Err(e);
            },
        };
        buf.clear();
        crate::push_bytes(buf, prefix.as_slice());
        crate::push_bytes(buf, data);
        stream.write_bytes(buf.as_slice())?;
        if always_flush {
            stream.flush()?;
        }
        proof {
            assert(stream.outbound() =~= old(stream).outbound() + spec_packet_bytes(
                *frame,
                data@,
            ));
        }
    }
    Ok(())
}

/// A simple client: it owns one stream to a peer, sends one request at a
/// time, and correlates each reply with the request's id.
pub struct SimpleClient<S: ByteStream> {
    request_id: u32,
    stream: S,
    target_id: u32,
    data_buf: Vec<u8>,
    zero_copy_after: usize,
    always_flush: bool,
}

impl<S: ByteStream> SimpleClient<S> {
    /// The id the next request will carry.
    pub closed spec fn request_id_spec(&self) -> u32 {
        self.request_id
    }

    /// The id of the peer this client addresses.
    pub closed spec fn target_id_spec(&self) -> u32 {
        self.target_id
    }

    /// The stream this client owns.
    pub closed spec fn stream_spec(&self) -> S {
        self.stream
    }

    /// The payload size above which the payload is written separately.
    pub closed spec fn zero_copy_after_spec(&self) -> usize {
        self.zero_copy_after
    }

    /// Whether the stream is flushed after a buffered write.
    pub closed spec fn always_flush_spec(&self) -> bool {
        self.always_flush
    }

    /// Create a new client that addresses `target_id` over `stream`.
    pub fn new(stream: S, target_id: u32) -> (c: Self)
        ensures
            c.request_id_spec() == 0,
            c.target_id_spec() == target_id,
            c.stream_spec() == stream,
            c.zero_copy_after_spec() == DEFAULT_ZERO_COPY_AFTER,
            c.always_flush_spec(),
    {
        Self {
            request_id: 0,
            stream,
            target_id,
            data_buf: Vec::new(),
            zero_copy_after: DEFAULT_ZERO_COPY_AFTER,
            always_flush: true,
        }
    }

    /// If the data size is larger than this value, it will be sent in a separate write
    pub fn with_zero_copy_after(self, zero_copy_after: usize) -> (c: Self)
        ensures
            c.request_id_spec() == self.request_id_spec(),
            c.target_id_spec() == self.target_id_spec(),
            c.stream_spec() == self.stream_spec(),
            c.zero_copy_after_spec() == zero_copy_after,
            c.always_flush_spec() == self.always_flush_spec(),
    {
        Self { zero_copy_after, ..self }
    }

    /// Always flush after writing
    pub fn with_always_flush(self, always_flush: bool) -> (c: Self)
        ensures
            c.request_id_spec() == self.request_id_spec(),
            c.target_id_spec() == self.target_id_spec(),
            c.stream_spec() == self.stream_spec(),
            c.zero_copy_after_spec() == self.zero_copy_after_spec(),
            c.always_flush_spec() == always_flush,
    {
        Self { always_flush, ..self }
    }

    /// The stream this client owns, e.g. to preload or inspect an in-memory
    /// stream.
    pub fn stream_mut(&mut self) -> (s: &mut S)
        ensures
            *s == old(self).stream_spec(),
            final(self).stream_spec() == *final(s),
            final(self).request_id_spec() == old(self).request_id_spec(),
            final(self).target_id_spec() == old(self).target_id_spec(),
            final(self).zero_copy_after_spec() == old(self).zero_copy_after_spec(),
            final(self).always_flush_spec() == old(self).always_flush_spec(),
    {
        &mut self.stream
    }

    /// Send one request carrying `command` and `data` and, when
    /// `wait_reply`, read one reply and validate it: it must be addressed
    /// to the requester (target 0) and correlate with the request's id, an
    /// error reply is decoded and raised, and any other reply's payload is
    /// returned.
    pub fn communicate(&mut self, command: Command, data: &[u8], wait_reply: bool) -> (r: Result<
        Option<Vec<u8>>,
        Error,
    >)
        ensures
            final(self).target_id_spec() == old(self).target_id_spec(),
            final(self).request_id_spec() == wrap_inc(old(self).request_id_spec()),
            final(self).zero_copy_after_spec() == old(self).zero_copy_after_spec(),
            final(self).always_flush_spec() == old(self).always_flush_spec(),
            ({
                let req = Frame {
                    source: 0,
                    target: old(self).target_id_spec(),
                    id: old(self).request_id_spec(),
                    in_reply_to: 0,
                    command,
                };
                let inb = old(self).stream_spec().inbound();
                let outb = old(self).stream_spec().outbound();
                if FRAME_SIZE + data@.len() > u32::MAX {
                    &&& r == Err::<Option<Vec<u8>>, Error>(Error::Overflow)
                    &&& final(self).stream_spec().outbound() == outb
                    &&& final(self).stream_spec().inbound() == inb
                } else {
                    &&& final(self).stream_spec().outbound() == outb + spec_packet_bytes(
                        req,
                        data@,
                    )
                    &&& if !wait_reply {
                        r == Ok::<Option<Vec<u8>>, Error>(None)
                            && final(self).stream_spec().inbound() == inb
                    } else {
                        &&& final(self).stream_spec().inbound() == inb.skip(
                            spec_full_packet_consumed(inb),
                        )
                        &&& match spec_parse_reply(inb, old(self).request_id_spec()) {
                            ReplyParse::Truncated => r is Err,
                            ReplyParse::BadMagic => r matches Err(e) && e is Packer,
                            ReplyParse::BadVersion => r == Err::<Option<Vec<u8>>, Error>(
                                Error::UnsupportedVersion,
                            ),
                            ReplyParse::BadSize => r == Err::<Option<Vec<u8>>, Error>(
                                Error::InvalidData,
                            ),
                            ReplyParse::Mismatch => r == Err::<Option<Vec<u8>>, Error>(
                                Error::InvalidReply,
                            ),
                            ReplyParse::ErrorReply(p) => r matches Err(e) && decodes_to(p, e),
                            ReplyParse::Payload(p) => r matches Ok(Some(v)) && v@ == p,
                        }
                    }
                }
            }),
    {
        let request_id = self.request_id;
        self.request_id = if request_id == u32::MAX {
            0
        } else {
            request_id + 1
        };
        let frame = Frame {
            source: 0,
            target: self.target_id,
            id: request_id,
            in_reply_to: 0,
            command,
        };
        send_packet(
            &mut self.stream,
            &mut self.data_buf,
            self.zero_copy_after,
            self.always_flush,
            &frame,
            data,
        )?;
        if !wait_reply {
            return Ok(None);
        }
        let packet = Packet::read_from(&mut self.stream)?;
        let data_len = packet.data_len();
        let payload = match self.stream.read_exact_bytes(data_len) {
            Ok(v) => v,
            Err(e) => {
                return Err(e);
            },
        };
        proof {
            let inb = old(self).stream_spec().inbound();
            assert(payload@ =~= inb.subrange(
                PACKET_HEADER_SIZE as int + FRAME_SIZE as int,
                PACKET_HEADER_SIZE as int + FRAME_SIZE as int + data_len as int,
            ));
            assert(self.stream.inbound() =~= inb.skip(spec_full_packet_consumed(inb)));
        }
        let frame = *packet.frame();
        if frame.target != 0 || frame.in_reply_to != request_id {
            return Err(Error::InvalidReply);
        }
        if matches!(frame.command, Command::Error) {
            return Err(decode_error(payload.as_slice()));
        }
        Ok(Some(payload))
    }

    /// Ping the target: an empty `Ping` request, answered with an empty
    /// reply.
    pub fn ping(&mut self) -> (r: Result<(), Error>)
        ensures
            final(self).target_id_spec() == old(self).target_id_spec(),
            final(self).request_id_spec() == wrap_inc(old(self).request_id_spec()),
            final(self).zero_copy_after_spec() == old(self).zero_copy_after_spec(),
            final(self).always_flush_spec() == old(self).always_flush_spec(),
            ({
                let req = Frame {
                    source: 0,
                    target: old(self).target_id_spec(),
                    id: old(self).request_id_spec(),
                    in_reply_to: 0,
                    command: Command::Ping,
                };
                let inb = old(self).stream_spec().inbound();
                &&& final(self).stream_spec().outbound() == old(self).stream_spec().outbound()
                    + spec_packet_bytes(req, Seq::<u8>::empty())
                &&& final(self).stream_spec().inbound() == inb.skip(spec_full_packet_consumed(inb))
                &&& match spec_parse_reply(inb, old(self).request_id_spec()) {
                    ReplyParse::Truncated => r is Err,
                    ReplyParse::BadMagic => r matches Err(e) && e is Packer,
                    ReplyParse::BadVersion => r == Err::<(), Error>(Error::UnsupportedVersion),
                    ReplyParse::BadSize => r == Err::<(), Error>(Error::InvalidData),
                    ReplyParse::Mismatch => r == Err::<(), Error>(Error::InvalidReply),
                    ReplyParse::ErrorReply(p) => r matches Err(e) && decodes_to(p, e),
                    ReplyParse::Payload(p) => r == Ok::<(), Error>(()),
                }
            }),
    {
        let no_data: Vec<u8> = Vec::new();
        match self.communicate(Command::Ping, no_data.as_slice(), true) {
            Ok(_) => Ok(()),
            Err(e) => Err(e),
        }
    }

    /// Read a register: send a `ReadSharedContext` request for
    /// `(register, offset, size)` and return the reply's payload.
    pub fn read_register(&mut self, register: u32, offset: u32, size: u32) -> (r: Result<
        Vec<u8>,
        Error,
    >)
        ensures
            final(self).target_id_spec() == old(self).target_id_spec(),
            final(self).request_id_spec() == wrap_inc(old(self).request_id_spec()),
            final(self).zero_copy_after_spec() == old(self).zero_copy_after_spec(),
            final(self).always_flush_spec() == old(self).always_flush_spec(),
            ({
                let req = Frame {
                    source: 0,
                    target: old(self).target_id_spec(),
                    id: old(self).request_id_spec(),
                    in_reply_to: 0,
                    command: Command::ReadSharedContext,
                };
                let header = RawDataHeader { register, offset, size };
                let inb = old(self).stream_spec().inbound();
                &&& final(self).stream_spec().outbound() == old(self).stream_spec().outbound()
                    + spec_packet_bytes(req, spec_raw_data_header_bytes(header))
                &&& final(self).stream_spec().inbound() == inb.skip(spec_full_packet_consumed(inb))
                &&& match spec_parse_reply(inb, old(self).request_id_spec()) {
                    ReplyParse::Truncated => r is Err,
                    ReplyParse::BadMagic => r matches Err(e) && e is Packer,
                    ReplyParse::BadVersion => r == Err::<Vec<u8>, Error>(
                        Error::UnsupportedVersion,
                    ),
                    ReplyParse::BadSize => r == Err::<Vec<u8>, Error>(Error::InvalidData),
                    ReplyParse::Mismatch => r == Err::<Vec<u8>, Error>(Error::InvalidReply),
                    ReplyParse::ErrorReply(p) => r matches Err(e) && decodes_to(p, e),
                    ReplyParse::Payload(p) => r matches Ok(v) && v@ == p,
                }
            }),
    {
        let raw_data_header = RawDataHeader { register, offset, size };
        let buf = encode_raw_data_header(&raw_data_header);
        match self.communicate(Command::ReadSharedContext, buf.as_slice(), true) {
            Ok(Some(v)) => Ok(v),
            Ok(None) => Err(Error::InvalidReply),
            Err(e) => Err(e),
        }
    }

    /// Write a register: send a `WriteSharedContext` request carrying the
    /// `(register, offset, len)` header and `data`, and await the
    /// confirmation reply.
    pub fn write_register(&mut self, register: u32, offset: u32, data: &[u8]) -> (r: Result<
        (),
        Error,
    >)
        ensures
            final(self).target_id_spec() == old(self).target_id_spec(),
            final(self).zero_copy_after_spec() == old(self).zero_copy_after_spec(),
            final(self).always_flush_spec() == old(self).always_flush_spec(),
            data@.len() > u32::MAX ==> r == Err::<(), Error>(Error::Overflow) && *final(self)
                == *old(self),
            data@.len() <= u32::MAX ==> final(self).request_id_spec() == wrap_inc(
                old(self).request_id_spec(),
            ) && ({
                let req = Frame {
                    source: 0,
                    target: old(self).target_id_spec(),
                    id: old(self).request_id_spec(),
                    in_reply_to: 0,
                    command: Command::WriteSharedContext,
                };
                let header = RawDataHeader { register, offset, size: data@.len() as u32 };
                let payload = spec_raw_data_header_bytes(header) + data@;
                let inb = old(self).stream_spec().inbound();
                if FRAME_SIZE + payload.len() > u32::MAX {
                    &&& r == Err::<(), Error>(Error::Overflow)
                    &&& final(self).stream_spec().outbound() == old(self).stream_spec().outbound()
                    &&& final(self).stream_spec().inbound() == inb
                } else {
                    &&& final(self).stream_spec().outbound() == old(self).stream_spec().outbound()
                        + spec_packet_bytes(req, payload)
                    &&& final(self).stream_spec().inbound() == inb.skip(
                        spec_full_packet_consumed(inb),
                    )
                    &&& match spec_parse_reply(inb, old(self).request_id_spec()) {
                        ReplyParse::Truncated => r is Err,
                        ReplyParse::BadMagic => r matches Err(e) && e is Packer,
                        ReplyParse::BadVersion => r == Err::<(), Error>(
                            Error::UnsupportedVersion,
                        ),
                        ReplyParse::BadSize => r == Err::<(), Error>(Error::InvalidData),
                        ReplyParse::Mismatch => r == Err::<(), Error>(Error::InvalidReply),
                        ReplyParse::ErrorReply(p) => r matches Err(e) && decodes_to(p, e),
                        ReplyParse::Payload(p) => r == Ok::<(), Error>(()),
                    }
                }
            }),
    {
        if data.len() > u32::MAX as usize {
            return Err(Error::Overflow);
        }
        let raw_data_header = RawDataHeader { register, offset, size: data.len() as u32 };
        let mut buf = encode_raw_data_header(&raw_data_header);
        crate::push_bytes(&mut buf, data);
        match self.communicate(Command::WriteSharedContext, buf.as_slice(), true) {
            Ok(_) => Ok(()),
            Err(e) => Err(e),
        }
    }
}

/// What the server step owes once the host answered `hr`: a reply is
/// serialized and written whole, or the step fails with `Overflow`, writing
/// nothing, when the reply cannot be framed; silence writes nothing and the
/// step succeeds; a host error is returned as it is, with nothing written.
pub open spec fn spec_step_outcome(
    hr: Result<Option<(Frame, Vec<u8>)>, Error>,
    r: Result<(), Error>,
    old_outbound: Seq<u8>,
    new_outbound: Seq<u8>,
) -> bool {
    match hr {
        Ok(None) => r == Ok::<(), Error>(()) && new_outbound == old_outbound,
        Ok(Some((reply, d))) => if FRAME_SIZE + d@.len() <= u32::MAX {
            r == Ok::<(), Error>(()) && new_outbound == old_outbound + spec_packet_bytes(
                reply,
                d@,
            )
        } else {
            r == Err::<(), Error>(Error::Overflow) && new_outbound == old_outbound
        },
        Err(e) => r == Err::<(), Error>(e) && new_outbound == old_outbound,
    }
}

/// A simple server processor: it owns one stream and a host, reads exactly
/// one request per step, and writes back the host's reply, if any.
#[verifier::reject_recursive_types(CTX)]
pub struct SimpleServerProcessor<CTX, HOST, S> where
    CTX: RpdoContext,
    HOST: SyncHost<Context = CTX>,
    S: ByteStream,
 {
    host: HOST,
    stream: S,
    data_buf: Vec<u8>,
    zero_copy_after: usize,
    always_flush: bool,
}

impl<CTX, HOST, S> SimpleServerProcessor<CTX, HOST, S> where
    CTX: RpdoContext,
    HOST: SyncHost<Context = CTX>,
    S: ByteStream,
 {
    /// The host this processor serves requests with.
    pub closed spec fn host_spec(&self) -> HOST {
        self.host
    }

    /// The stream this processor owns.
    pub closed spec fn stream_spec(&self) -> S {
        self.stream
    }

    /// The payload size above which a reply payload is written separately.
    pub closed spec fn zero_copy_after_spec(&self) -> usize {
        self.zero_copy_after
    }

    /// Whether the stream is flushed after a buffered write.
    pub closed spec fn always_flush_spec(&self) -> bool {
        self.always_flush
    }

    /// Create a new server processor
    pub fn new(host: HOST, stream: S) -> (p: Self)
        ensures
            p.host_spec() == host,
            p.stream_spec() == stream,
            p.zero_copy_after_spec() == DEFAULT_ZERO_COPY_AFTER,
            p.always_flush_spec(),
    {
        Self {
            host,
            stream,
            data_buf: Vec::new(),
            zero_copy_after: DEFAULT_ZERO_COPY_AFTER,
            always_flush: true,
        }
    }

    /// If the data size is larger than this value, it will be sent in a separate write
    pub fn with_zero_copy_after(self, zero_copy_after: usize) -> (p: Self)
        ensures
            p.host_spec() == self.host_spec(),
            p.stream_spec() == self.stream_spec(),
            p.zero_copy_after_spec() == zero_copy_after,
            p.always_flush_spec() == self.always_flush_spec(),
    {
        Self { zero_copy_after, ..self }
    }

    /// Always flush after writing
    pub fn with_always_flush(self, always_flush: bool) -> (p: Self)
        ensures
            p.host_spec() == self.host_spec(),
            p.stream_spec() == self.stream_spec(),
            p.zero_copy_after_spec() == self.zero_copy_after_spec(),
            p.always_flush_spec() == always_flush,
    {
        Self { always_flush, ..self }
    }

    /// The stream this processor owns, e.g. to preload or inspect an
    /// in-memory stream.
    pub fn stream_mut(&mut self) -> (s: &mut S)
        ensures
            *s == old(self).stream_spec(),
            final(self).stream_spec() == *final(s),
            final(self).host_spec() == old(self).host_spec(),
            final(self).zero_copy_after_spec() == old(self).zero_copy_after_spec(),
            final(self).always_flush_spec() == old(self).always_flush_spec(),
    {
        &mut self.stream
    }

    /// Read exactly one request (packet and payload) from the stream, have
    /// the host process it once, and write back what it answered: its
    /// reply, serialized whole, or nothing when it stayed silent, or its
    /// error returned as it is with nothing written.  A malformed or
    /// truncated request aborts with the error and writes nothing; the
    /// caller discards the connection.
    pub fn process_next(&mut self) -> (r: Result<(), Error>)
        ensures
            final(self).host_spec().host_id() == old(self).host_spec().host_id(),
            final(self).zero_copy_after_spec() == old(self).zero_copy_after_spec(),
            final(self).always_flush_spec() == old(self).always_flush_spec(),
            ({
                let inb = old(self).stream_spec().inbound();
                let outb = old(self).stream_spec().outbound();
                let new_outb = final(self).stream_spec().outbound();
                &&& final(self).stream_spec().inbound() == inb.skip(
                    spec_full_packet_consumed(inb),
                )
                &&& match spec_parse_full_packet(inb) {
                    FullPacketParse::Truncated => r is Err && new_outb == outb
                        && final(self).host_spec() == old(self).host_spec(),
                    FullPacketParse::BadMagic => (r matches Err(e) && e is Packer) && new_outb
                        == outb && final(self).host_spec() == old(self).host_spec(),
                    FullPacketParse::BadVersion => r == Err::<(), Error>(
                        Error::UnsupportedVersion,
                    ) && new_outb == outb && final(self).host_spec() == old(self).host_spec(),
                    FullPacketParse::BadSize => r == Err::<(), Error>(Error::InvalidData)
                        && new_outb == outb && final(self).host_spec() == old(self).host_spec(),
                    FullPacketParse::Packet { frame, payload } => exists|
                        hr: Result<Option<(Frame, Vec<u8>)>, Error>,
                    |
                        #[trigger] old(self).host_spec().dispatches(
                            final(self).host_spec(),
                            frame,
                            payload,
                            hr,
                        ) && spec_step_outcome(hr, r, outb, new_outb),
                }
            }),
    {
        let packet = match Packet::read_from(&mut self.stream) {
            Ok(p) => p,
            Err(e) => {
                return Err(e);
            },
        };
        let data_len = packet.data_len();
        let payload = match self.stream.read_exact_bytes(data_len) {
            Ok(v) => v,
            Err(e) => {
                return Err(e);
            },
        };
        proof {
            let inb = old(self).stream_spec().inbound();
            assert(payload@ =~= inb.subrange(
                PACKET_HEADER_SIZE as int + FRAME_SIZE as int,
                PACKET_HEADER_SIZE as int + FRAME_SIZE as int + data_len as int,
            ));
            assert(self.stream.inbound() =~= inb.skip(spec_full_packet_consumed(inb)));
        }
        let frame = *packet.frame();
        let host_result = self.host.process_frame(&frame, payload.as_slice());
        let ghost hr = host_result;
        proof {
            assert(old(self).host_spec().dispatches(self.host_spec(), frame, payload@, hr));
        }
        let reply_opt = match host_result {
            Ok(ro) => ro,
            Err(e) => {
                proof {
                    let parsed = spec_parse_full_packet(old(self).stream_spec().inbound());
                    assert(parsed->Packet_frame == frame);
                    assert(parsed->Packet_payload == payload@);
                    assert(old(self).host_spec().dispatches(
                        self.host_spec(),
                        parsed->Packet_frame,
                        parsed->Packet_payload,
                        hr,
                    ));
                }
                return Err(e);
            },
        };
        let outcome = match reply_opt {
            Some((reply, data)) => {
                match send_packet(
                    &mut self.stream,
                    &mut self.data_buf,
                    self.zero_copy_after,
                    self.always_flush,
                    &reply,
                    data.as_slice(),
                ) {
                    Ok(()) => Ok(()),
                    Err(e) => Err(e),
                }
            },
            None => Ok(()),
        };
        proof {
            let parsed = spec_parse_full_packet(old(self).stream_spec().inbound());
            assert(parsed->Packet_frame == frame);
            assert(parsed->Packet_payload == payload@);
            assert(old(self).host_spec().dispatches(
                self.host_spec(),
                parsed->Packet_frame,
                parsed->Packet_payload,
                hr,
            ));
        }
        outcome
    }
}

} // verus!
