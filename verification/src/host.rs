//! The host-side command dispatcher: given an inbound frame and its payload,
//! produce zero or one reply frame with payload.
//!
//! A host answers frames addressed to its own id or to the broadcast id 0.
//! Stray replies and errors are swallowed, standard commands are served
//! against the shared context, and unknown commands are delegated to an
//! optional user-supplied handler.

use vstd::prelude::*;
use vstd::slice::slice_subrange;

use crate::comm::{
    decode_raw_data_header, spec_parse_raw_data_header, Command, Frame, RAW_DATA_HEADER_SIZE,
};
use crate::context::{spec_get_bytes, spec_set_bytes, RpdoContext};
use crate::error::{encode_error, spec_encode_error, Error};

verus! {

/// A user-supplied handler consulted for command codes outside the standard
/// set.  `Ok(Some(bytes))` answers with a reply carrying `bytes`, `Ok(None)`
/// sends no reply, and `Err` is turned into an error reply by the host.  A
/// handler must be safe to consult concurrently.
pub trait CustomCommandHandler {
    /// The handling relation of this handler: whether `r` is an answer it
    /// may give to `frame` with payload `data`.  Unconstrained unless the
    /// implementation narrows it; the dispatcher's contract promises that
    /// whatever it answers is mirrored into the reply.
    open spec fn handles(&self, frame: Frame, data: Seq<u8>, r: Result<Option<Vec<u8>>, Error>) -> bool {
        true
    }

    /// Handle `frame`, whose payload is `data`.
    fn handle(&self, frame: &Frame, data: &[u8]) -> (r: Result<Option<Vec<u8>>, Error>)
        ensures
            self.handles(*frame, data@, r),
    ;
}

/// The handler type of a host created without one; it rejects every command.
/// A host only consults its handler when one was attached, so this stands in
/// for "no handler" in the host's type.
pub struct NoHandler;

impl CustomCommandHandler for NoHandler {
    fn handle(&self, frame: &Frame, data: &[u8]) -> (r: Result<Option<Vec<u8>>, Error>)
        ensures
            r == Err::<Option<Vec<u8>>, Error>(Error::InvalidCommand),
    {
        Err(Error::InvalidCommand)
    }
}

/// The successor of a frame id, with 32-bit wrap-around.
pub open spec fn wrap_inc(id: u32) -> u32 {
    if id == u32::MAX {
        0
    } else {
        (id + 1) as u32
    }
}

/// The frame a host answers `frame` with: source and target swap roles, the
/// fresh id is `fresh_id`, and `in_reply_to` correlates with the request.
pub open spec fn spec_host_reply(hid: u32, fresh_id: u32, frame: Frame, error: bool) -> Frame {
    Frame {
        source: hid,
        target: frame.source,
        id: fresh_id,
        in_reply_to: frame.id,
        command: if error {
            Command::Error
        } else {
            Command::Reply
        },
    }
}

/// The reply the dispatcher owes for answer `hr` of the custom handler: a
/// payload becomes a reply carrying exactly it, silence sends no reply, and
/// an error is encoded into an error reply.
pub open spec fn spec_handler_outcome(
    hid: u32,
    nid: u32,
    frame: Frame,
    hr: Result<Option<Vec<u8>>, Error>,
    r: Result<Option<(Frame, Vec<u8>)>, Error>,
    nid_post: u32,
) -> bool {
    match hr {
        Ok(Some(v)) => (r matches Ok(Some((f, d))) && f == spec_host_reply(hid, nid, frame, false)
            && d@ == v@) && nid_post == wrap_inc(nid),
        Ok(None) => r == Ok::<Option<(Frame, Vec<u8>)>, Error>(None) && nid_post == nid,
        Err(e) => (r matches Ok(Some((f, d))) && f == spec_host_reply(hid, nid, frame, true) && d@
            == spec_encode_error(e)) && nid_post == wrap_inc(nid),
    }
}

/// The dispatcher's contract, as a relation between the host state before
/// (`nid` next frame id, `regs`/`flex` shared context, `handler`) and
/// after (`regs_post`, `nid_post`) serving `frame` with payload `data`,
/// producing `r`.
///
/// In order: stray replies and errors are swallowed; a frame for another
/// host is answered with `UnknownHost`; ping is answered with an empty
/// reply; register reads and writes are served against the shared context,
/// their failures turned into error replies; a malformed register payload
/// aborts with a packing error; an unconfirmed write succeeds silently; an
/// unknown command goes to the custom handler if there is one — some answer
/// the handler may give is mirrored exactly into the reply — and is
/// rejected with `InvalidCommand` otherwise.
pub open spec fn spec_dispatch<H: CustomCommandHandler>(
    hid: u32,
    nid: u32,
    regs: Seq<Seq<u8>>,
    flex: bool,
    handler: Option<H>,
    frame: Frame,
    data: Seq<u8>,
    r: Result<Option<(Frame, Vec<u8>)>, Error>,
    regs_post: Seq<Seq<u8>>,
    nid_post: u32,
) -> bool {
    if frame.command == Command::Reply || frame.command == Command::Error {
        r == Ok::<Option<(Frame, Vec<u8>)>, Error>(None) && regs_post == regs && nid_post == nid
    } else if frame.target != hid && frame.target != 0 {
        &&& (r matches Ok(Some((f, d))) && f == spec_host_reply(hid, nid, frame, true) && d@
            == spec_encode_error(Error::UnknownHost))
        &&& regs_post == regs
        &&& nid_post == wrap_inc(nid)
    } else if frame.command == Command::Ping {
        &&& (r matches Ok(Some((f, d))) && f == spec_host_reply(hid, nid, frame, false) && d@
            == Seq::<u8>::empty())
        &&& regs_post == regs
        &&& nid_post == wrap_inc(nid)
    } else if frame.command == Command::ReadSharedContext {
        if data.len() < RAW_DATA_HEADER_SIZE {
            &&& (r matches Err(e) && e is Packer)
            &&& regs_post == regs
            &&& nid_post == nid
        } else {
            let hdr = spec_parse_raw_data_header(data.take(RAW_DATA_HEADER_SIZE as int));
            match spec_get_bytes(regs, flex, hdr.register, hdr.offset, hdr.size) {
                Ok(bytes) => {
                    &&& (r matches Ok(Some((f, d))) && f == spec_host_reply(hid, nid, frame, false)
                        && d@ == bytes)
                    &&& regs_post == regs
                    &&& nid_post == wrap_inc(nid)
                },
                Err(e) => {
                    &&& (r matches Ok(Some((f, d))) && f == spec_host_reply(hid, nid, frame, true)
                        && d@ == spec_encode_error(e))
                    &&& regs_post == regs
                    &&& nid_post == wrap_inc(nid)
                },
            }
        }
    } else if frame.command == Command::WriteSharedContext || frame.command
        == Command::WriteSharedContextUnconfirmed {
        if data.len() < RAW_DATA_HEADER_SIZE {
            &&& (r matches Err(e) && e is Packer)
            &&& regs_post == regs
            &&& nid_post == nid
        } else {
            let hdr = spec_parse_raw_data_header(data.take(RAW_DATA_HEADER_SIZE as int));
            let raw = data.skip(RAW_DATA_HEADER_SIZE as int);
            if raw.len() > u32::MAX {
                &&& r == Err::<Option<(Frame, Vec<u8>)>, Error>(Error::Overflow)
                &&& regs_post == regs
                &&& nid_post == nid
            } else if hdr.size != raw.len() {
                &&& r == Err::<Option<(Frame, Vec<u8>)>, Error>(Error::InvalidData)
                &&& regs_post == regs
                &&& nid_post == nid
            } else {
                match spec_set_bytes(regs, flex, hdr.register, hdr.offset, raw) {
                    Ok(new_regs) => {
                        &&& regs_post == new_regs
                        &&& if frame.command == Command::WriteSharedContext {
                            (r matches Ok(Some((f, d))) && f == spec_host_reply(
                                hid,
                                nid,
                                frame,
                                false,
                            ) && d@ == Seq::<u8>::empty()) && nid_post == wrap_inc(nid)
                        } else {
                            r == Ok::<Option<(Frame, Vec<u8>)>, Error>(None) && nid_post == nid
                        }
                    },
                    Err(e) => {
                        &&& (r matches Ok(Some((f, d))) && f == spec_host_reply(
                            hid,
                            nid,
                            frame,
                            true,
                        ) && d@ == spec_encode_error(e))
                        &&& regs_post == regs
                        &&& nid_post == wrap_inc(nid)
                    },
                }
            }
        }
    } else {
        match handler {
            Some(h) => {
                &&& regs_post == regs
                &&& exists|hr: Result<Option<Vec<u8>>, Error>|
                    #[trigger] h.handles(frame, data, hr) && spec_handler_outcome(
                        hid,
                        nid,
                        frame,
                        hr,
                        r,
                        nid_post,
                    )
            },
            None => {
                &&& (r matches Ok(Some((f, d))) && f == spec_host_reply(hid, nid, frame, true)
                    && d@ == spec_encode_error(Error::InvalidCommand))
                &&& regs_post == regs
                &&& nid_post == wrap_inc(nid)
            },
        }
    }
}

/// Law: every reply the dispatcher produces is correlated with the request
/// and framed from the host: `in_reply_to` is the request's id, the target
/// is the request's source, and the source is the host's own id.
pub proof fn lemma_reply_correlated<H: CustomCommandHandler>(
    hid: u32,
    nid: u32,
    regs: Seq<Seq<u8>>,
    flex: bool,
    handler: Option<H>,
    frame: Frame,
    data: Seq<u8>,
    r: Result<Option<(Frame, Vec<u8>)>, Error>,
    regs_post: Seq<Seq<u8>>,
    nid_post: u32,
)
    requires
        spec_dispatch(hid, nid, regs, flex, handler, frame, data, r, regs_post, nid_post),
        r matches Ok(Some(_)),
    ensures
        r matches Ok(Some((reply, payload))) ==> reply.in_reply_to == frame.id && reply.target
            == frame.source && reply.source == hid && (reply.command == Command::Reply
            || reply.command == Command::Error),
{
}

/// Law: a request addressed to a host id that does not match, and is not the
/// broadcast id 0, is answered with exactly one error reply carrying the
/// `UnknownHost` code, and the shared context is untouched.
pub proof fn lemma_wrong_target_rejected<H: CustomCommandHandler>(
    hid: u32,
    nid: u32,
    regs: Seq<Seq<u8>>,
    flex: bool,
    handler: Option<H>,
    frame: Frame,
    data: Seq<u8>,
    r: Result<Option<(Frame, Vec<u8>)>, Error>,
    regs_post: Seq<Seq<u8>>,
    nid_post: u32,
)
    requires
        spec_dispatch(hid, nid, regs, flex, handler, frame, data, r, regs_post, nid_post),
        frame.command != Command::Reply,
        frame.command != Command::Error,
        frame.target != hid,
        frame.target != 0,
    ensures
        r matches Ok(Some((reply, payload))) && reply == spec_host_reply(hid, nid, frame, true)
            && payload@ == spec_encode_error(Error::UnknownHost),
        regs_post == regs,
{
}

/// Law: an unconfirmed write that the shared context accepts yields no
/// reply; one it rejects yields exactly one error reply carrying the
/// rejection, and the context is untouched.
pub proof fn lemma_unconfirmed_write_silent<H: CustomCommandHandler>(
    hid: u32,
    nid: u32,
    regs: Seq<Seq<u8>>,
    flex: bool,
    handler: Option<H>,
    frame: Frame,
    data: Seq<u8>,
    r: Result<Option<(Frame, Vec<u8>)>, Error>,
    regs_post: Seq<Seq<u8>>,
    nid_post: u32,
)
    requires
        spec_dispatch(hid, nid, regs, flex, handler, frame, data, r, regs_post, nid_post),
        frame.command == Command::WriteSharedContextUnconfirmed,
        frame.target == hid || frame.target == 0,
        data.len() >= RAW_DATA_HEADER_SIZE,
        data.skip(RAW_DATA_HEADER_SIZE as int).len() <= u32::MAX,
        spec_parse_raw_data_header(data.take(RAW_DATA_HEADER_SIZE as int)).size == data.skip(
            RAW_DATA_HEADER_SIZE as int,
        ).len(),
    ensures
        ({
            let hdr = spec_parse_raw_data_header(data.take(RAW_DATA_HEADER_SIZE as int));
            let raw = data.skip(RAW_DATA_HEADER_SIZE as int);
            match spec_set_bytes(regs, flex, hdr.register, hdr.offset, raw) {
                Ok(new_regs) => r == Ok::<Option<(Frame, Vec<u8>)>, Error>(None) && regs_post
                    == new_regs,
                Err(e) => (r matches Ok(Some((reply, payload))) && reply == spec_host_reply(
                    hid,
                    nid,
                    frame,
                    true,
                ) && payload@ == spec_encode_error(e)) && regs_post == regs,
            }
        }),
{
}

/// Law: an unknown command addressed to the host, with a handler attached,
/// is answered according to the handler: some answer the handler may give
/// for exactly this frame and payload is mirrored into the result — a
/// payload becomes a reply carrying it, silence sends no reply, an error is
/// encoded into an error reply — and the shared context is untouched.
pub proof fn lemma_custom_handler_mirrored<H: CustomCommandHandler>(
    hid: u32,
    nid: u32,
    regs: Seq<Seq<u8>>,
    flex: bool,
    handler: Option<H>,
    frame: Frame,
    data: Seq<u8>,
    r: Result<Option<(Frame, Vec<u8>)>, Error>,
    regs_post: Seq<Seq<u8>>,
    nid_post: u32,
)
    requires
        spec_dispatch(hid, nid, regs, flex, handler, frame, data, r, regs_post, nid_post),
        frame.command matches Command::Other(_),
        frame.target == hid || frame.target == 0,
        handler matches Some(_),
    ensures
        regs_post == regs,
        handler matches Some(h) ==> exists|hr: Result<Option<Vec<u8>>, Error>|
            #[trigger] h.handles(frame, data, hr) && spec_handler_outcome(
                hid,
                nid,
                frame,
                hr,
                r,
                nid_post,
            ),
{
}

/// An addressable endpoint that serves frames against a shared context.
pub trait SyncHost: Sized {
    /// The shared-context type this host serves.
    type Context: RpdoContext;

    /// The identifier this host answers to.  Unspecified unless the
    /// implementation gives it a meaning.
    open spec fn host_id(&self) -> u32 {
        vstd::pervasive::arbitrary()
    }

    /// The dispatch relation of this host: whether serving `frame` with
    /// payload `data` may turn the host from `self` into `post`, producing
    /// `r`.  Unconstrained unless the implementation narrows it; the
    /// reference host narrows it to [`spec_dispatch`].
    open spec fn dispatches(
        self,
        post: Self,
        frame: Frame,
        data: Seq<u8>,
        r: Result<Option<(Frame, Vec<u8>)>, Error>,
    ) -> bool {
        true
    }

    /// Whether a frame addresses this host: its target is the host's own id
    /// or the broadcast id 0.
    fn host_id_matches(&self, frame: &Frame) -> (b: bool)
        ensures
            b == (frame.target == self.host_id() || frame.target == 0),
    ;

    /// Build a frame originating from this host, consuming a fresh frame id.
    fn create_frame(&mut self, target: u32, in_reply_to: u32, command: Command) -> (f: Frame)
        ensures
            final(self).host_id() == old(self).host_id(),
            f.source == old(self).host_id(),
            f.target == target,
            f.in_reply_to == in_reply_to,
            f.command == command,
    ;

    /// Serve one frame with its payload; produce no reply or exactly one.
    /// Every reply is correlated with the request and framed from this
    /// host, and the step stands in the host's dispatch relation.
    fn process_frame(&mut self, frame: &Frame, data: &[u8]) -> (r: Result<
        Option<(Frame, Vec<u8>)>,
        Error,
    >)
        ensures
            final(self).host_id() == old(self).host_id(),
            old(self).dispatches(*final(self), *frame, data@, r),
            frame.command == Command::Reply || frame.command == Command::Error ==> r
                == Ok::<Option<(Frame, Vec<u8>)>, Error>(None),
            r matches Ok(Some((reply, payload))) ==> reply.source == old(self).host_id()
                && reply.target == frame.source && reply.in_reply_to == frame.id && (reply.command
                == Command::Reply || reply.command == Command::Error),
    ;
}

/// The reference host: an id, a frame-id counter and an owned shared context,
/// with an optional custom command handler.
pub struct Host<CTX: RpdoContext, H: CustomCommandHandler> {
    id: u32,
    next_frame_id: u32,
    context: CTX,
    custom_command_handler: Option<H>,
}

impl<CTX: RpdoContext, H: CustomCommandHandler> Host<CTX, H> {
    /// The next frame id this host will assign.
    pub closed spec fn next_id_spec(&self) -> u32 {
        self.next_frame_id
    }

    /// The shared context this host serves.
    pub closed spec fn context_spec(&self) -> CTX {
        self.context
    }

    /// The attached custom command handler, if any.
    pub closed spec fn handler_spec(&self) -> Option<H> {
        self.custom_command_handler
    }

    /// Whether a custom command handler is attached.
    pub open spec fn has_handler(&self) -> bool {
        self.handler_spec() is Some
    }

    /// Attach a custom command handler
    pub fn with_custom_command_handler<H2: CustomCommandHandler>(
        self,
        custom_command_handler: H2,
    ) -> (h: Host<CTX, H2>)
        ensures
            h.host_id() == self.host_id(),
            h.next_id_spec() == self.next_id_spec(),
            h.context_spec() == self.context_spec(),
            h.handler_spec() == Some(custom_command_handler),
    {
        Host {
            id: self.id,
            next_frame_id: self.next_frame_id,
            context: self.context,
            custom_command_handler: Some(custom_command_handler),
        }
    }
}

impl<CTX: RpdoContext> Host<CTX, NoHandler> {
    /// Create a new host with the given id, serving `context`, without a
    /// custom command handler.
    pub fn new(id: u32, context: CTX) -> (h: Self)
        ensures
            h.host_id() == id,
            h.next_id_spec() == 0,
            h.context_spec() == context,
            h.handler_spec() == Option::<NoHandler>::None,
    {
        Host { id, next_frame_id: 0, context, custom_command_handler: None }
    }
}

impl<CTX: RpdoContext, H: CustomCommandHandler> SyncHost for Host<CTX, H> {
    type Context = CTX;

    closed spec fn host_id(&self) -> u32 {
        self.id
    }

    open spec fn dispatches(
        self,
        post: Self,
        frame: Frame,
        data: Seq<u8>,
        r: Result<Option<(Frame, Vec<u8>)>, Error>,
    ) -> bool {
        &&& post.host_id() == self.host_id()
        &&& post.handler_spec() == self.handler_spec()
        &&& post.context_spec().flexible() == self.context_spec().flexible()
        &&& spec_dispatch(
            self.host_id(),
            self.next_id_spec(),
            self.context_spec().regs(),
            self.context_spec().flexible(),
            self.handler_spec(),
            frame,
            data,
            r,
            post.context_spec().regs(),
            post.next_id_spec(),
        )
    }

    fn host_id_matches(&self, frame: &Frame) -> (b: bool) {
        frame.target == self.id || frame.target == 0
    }

    fn create_frame(&mut self, target: u32, in_reply_to: u32, command: Command) -> (f: Frame)
        ensures
            f.id == old(self).next_id_spec(),
            final(self).next_id_spec() == wrap_inc(old(self).next_id_spec()),
            final(self).context_spec() == old(self).context_spec(),
            final(self).handler_spec() == old(self).handler_spec(),
    {
        let frame_id = self.next_frame_id;
        self.next_frame_id = if frame_id == u32::MAX {
            0
        } else {
            frame_id + 1
        };
        Frame { source: self.id, target, id: frame_id, in_reply_to, command }
    }

    fn process_frame(&mut self, frame: &Frame, data: &[u8]) -> (r: Result<
        Option<(Frame, Vec<u8>)>,
        Error,
    >)
        ensures
            final(self).handler_spec() == old(self).handler_spec(),
            final(self).context_spec().flexible() == old(self).context_spec().flexible(),
            spec_dispatch(
                old(self).host_id(),
                old(self).next_id_spec(),
                old(self).context_spec().regs(),
                old(self).context_spec().flexible(),
                old(self).handler_spec(),
                *frame,
                data@,
                r,
                final(self).context_spec().regs(),
                final(self).next_id_spec(),
            ),
    {
        match frame.command {
            Command::Reply => {
                return Ok(None);
            },
            Command::Error => {
                return Ok(None);
            },
            _ => {},
        }
        if !(frame.target == self.id || frame.target == 0) {
            let reply = self.create_frame(frame.source, frame.id, Command::Error);
            return Ok(Some((reply, encode_error(&Error::UnknownHost))));
        }
        match frame.command {
            Command::Ping => {
                let reply = self.create_frame(frame.source, frame.id, Command::Reply);
                Ok(Some((reply, Vec::new())))
            },
            Command::ReadSharedContext => {
                if data.len() < RAW_DATA_HEADER_SIZE {
                    return Err(Error::Packer(String::new()));
                }
                let header_bytes = slice_subrange(data, 0, RAW_DATA_HEADER_SIZE);
                proof {
                    assert(header_bytes@ =~= data@.take(RAW_DATA_HEADER_SIZE as int));
                }
                let hdr = decode_raw_data_header(header_bytes);
                match self.context.get_bytes(hdr.register, hdr.offset, hdr.size) {
                    Ok(v) => {
                        let reply = self.create_frame(frame.source, frame.id, Command::Reply);
                        Ok(Some((reply, v)))
                    },
                    Err(e) => {
                        let reply = self.create_frame(frame.source, frame.id, Command::Error);
                        Ok(Some((reply, encode_error(&e))))
                    },
                }
            },
            Command::WriteSharedContext | Command::WriteSharedContextUnconfirmed => {
                if data.len() < RAW_DATA_HEADER_SIZE {
                    return Err(Error::Packer(String::new()));
                }
                let header_bytes = slice_subrange(data, 0, RAW_DATA_HEADER_SIZE);
                proof {
                    assert(header_bytes@ =~= data@.take(RAW_DATA_HEADER_SIZE as int));
                }
                let hdr = decode_raw_data_header(header_bytes);
                let raw = slice_subrange(data, RAW_DATA_HEADER_SIZE, data.len());
                proof {
                    assert(raw@ =~= data@.skip(RAW_DATA_HEADER_SIZE as int));
                }
                if raw.len() > u32::MAX as usize {
                    return Err(Error::Overflow);
                }
                if hdr.size != raw.len() as u32 {
                    return Err(Error::InvalidData);
                }
                match self.context.set_bytes(hdr.register, hdr.offset, raw) {
                    Ok(()) => {
                        if matches!(frame.command, Command::WriteSharedContext) {
                            let reply = self.create_frame(frame.source, frame.id, Command::Reply);
                            Ok(Some((reply, Vec::new())))
                        } else {
                            Ok(None)
                        }
                    },
                    Err(e) => {
                        let reply = self.create_frame(frame.source, frame.id, Command::Error);
                        Ok(Some((reply, encode_error(&e))))
                    },
                }
            },
            _ => {
                let handled: Option<Result<Option<Vec<u8>>, Error>> = match &self
                    .custom_command_handler {
                    Some(handler) => {
                        let answer = handler.handle(frame, data);
                        proof {
                            assert(old(self).handler_spec() matches Some(h) && h.handles(
                                *frame,
                                data@,
                                answer,
                            ));
                        }
                        Some(answer)
                    },
                    None => None,
                };
                match handled {
                    Some(Ok(Some(v))) => {
                        let reply = self.create_frame(frame.source, frame.id, Command::Reply);
                        Ok(Some((reply, v)))
                    },
                    Some(Ok(None)) => Ok(None),
                    Some(Err(e)) => {
                        let reply = self.create_frame(frame.source, frame.id, Command::Error);
                        Ok(Some((reply, encode_error(&e))))
                    },
                    None => {
                        let reply = self.create_frame(frame.source, frame.id, Command::Error);
                        Ok(Some((reply, encode_error(&Error::InvalidCommand))))
                    },
                }
            },
        }
    }
}

} // verus!
