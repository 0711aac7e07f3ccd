//! The closed failure taxonomy of the protocol, with stable 16-bit wire codes
//! and the bidirectional codec over error payload bytes.
//!
//! An error payload is the 2-byte little-endian code followed by an optional
//! UTF-8 message that runs to the end of the payload.  Message strings are
//! advisory only; peers must never switch behaviour on them.

use vstd::bytes::{
    lemma_auto_spec_u16_to_from_le_bytes, spec_u16_from_le_bytes, spec_u16_to_le_bytes,
    u16_from_le_bytes, u16_to_le_bytes,
};
use vstd::prelude::*;
use vstd::slice::slice_subrange;
use vstd::utf8::{encode_utf8, valid_utf8};

verus! {

/// Error code for unknown host
pub const ERR_UNKNOWN_HOST: u16 = 0x0001;

/// Error code for invalid command
pub const ERR_INVALID_COMMAND: u16 = 0x0002;

/// Error code for invalid register
pub const ERR_INVALID_REGISTER: u16 = 0x0003;

/// Error code for invalid offset
pub const ERR_INVALID_OFFSET: u16 = 0x0004;

/// Error code for invalid reply
pub const ERR_INVALID_REPLY: u16 = 0x0005;

/// Error code for overflow
pub const ERR_OVERFLOW: u16 = 0x0006;

/// Error code for invalid version
pub const ERR_INVALID_VERSION: u16 = 0x0007;

/// Error code for I/O errors
pub const ERR_IO: u16 = 0x0008;

/// Error code for invalid data
pub const ERR_INVALID_DATA: u16 = 0x0009;

/// Error code for failed data packing/unpacking
pub const ERR_PACKER: u16 = 0x0010;

/// Error code for all other errors
pub const ERR_FAILED: u16 = 0x0000;

/// Error type
#[derive(Debug)]
pub enum Error {
    /// Host unknown
    UnknownHost,
    /// Invalid command
    InvalidCommand,
    /// Invalid register
    InvalidRegister,
    /// Invalid register offset
    InvalidOffset,
    /// Invalid reply received
    InvalidReply,
    /// Overflow (e.g. register size)
    Overflow,
    /// Unsupported protocol version
    UnsupportedVersion,
    /// I/O error, with an advisory message
    Io(String),
    /// Invalid data
    InvalidData,
    /// Packer/Unpacker error, with an advisory message
    Packer(String),
    /// Failed, with an advisory message
    Failed(String),
}

impl Error {
    /// The stable wire code of this error.
    pub open spec fn code_spec(&self) -> u16 {
        match self {
            Error::UnknownHost => ERR_UNKNOWN_HOST,
            Error::InvalidCommand => ERR_INVALID_COMMAND,
            Error::InvalidRegister => ERR_INVALID_REGISTER,
            Error::InvalidOffset => ERR_INVALID_OFFSET,
            Error::InvalidReply => ERR_INVALID_REPLY,
            Error::Overflow => ERR_OVERFLOW,
            Error::UnsupportedVersion => ERR_INVALID_VERSION,
            Error::Io(_) => ERR_IO,
            Error::InvalidData => ERR_INVALID_DATA,
            Error::Packer(_) => ERR_PACKER,
            Error::Failed(_) => ERR_FAILED,
        }
    }

    /// Get the error code
    pub fn code(&self) -> (c: u16)
        ensures
            c == self.code_spec(),
    {
        match self {
            Error::UnknownHost => ERR_UNKNOWN_HOST,
            Error::InvalidCommand => ERR_INVALID_COMMAND,
            Error::InvalidRegister => ERR_INVALID_REGISTER,
            Error::InvalidOffset => ERR_INVALID_OFFSET,
            Error::InvalidReply => ERR_INVALID_REPLY,
            Error::Overflow => ERR_OVERFLOW,
            Error::UnsupportedVersion => ERR_INVALID_VERSION,
            Error::Io(_) => ERR_IO,
            Error::InvalidData => ERR_INVALID_DATA,
            Error::Packer(_) => ERR_PACKER,
            Error::Failed(_) => ERR_FAILED,
        }
    }

    /// Create a failed error carrying an advisory message
    pub fn failed(msg: String) -> (e: Error)
        ensures
            e == (Error::Failed(msg)),
    {
        Error::Failed(msg)
    }
}

/// The advisory message bytes an error contributes to its wire form.
pub open spec fn spec_message_bytes(e: Error) -> Seq<u8> {
    match e {
        Error::Io(m) => encode_utf8(m@),
        Error::Packer(m) => encode_utf8(m@),
        Error::Failed(m) => encode_utf8(m@),
        _ => Seq::<u8>::empty(),
    }
}

/// The wire form of an error: its 2-byte little-endian code followed by the
/// UTF-8 bytes of its advisory message, if it carries one.
pub open spec fn spec_encode_error(e: Error) -> Seq<u8> {
    spec_u16_to_le_bytes(e.code_spec()) + spec_message_bytes(e)
}

/// Whether a wire code belongs to the closed error taxonomy.
pub open spec fn known_code(c: u16) -> bool {
    ||| c == ERR_FAILED
    ||| c == ERR_UNKNOWN_HOST
    ||| c == ERR_INVALID_COMMAND
    ||| c == ERR_INVALID_REGISTER
    ||| c == ERR_INVALID_OFFSET
    ||| c == ERR_INVALID_REPLY
    ||| c == ERR_OVERFLOW
    ||| c == ERR_INVALID_VERSION
    ||| c == ERR_IO
    ||| c == ERR_INVALID_DATA
    ||| c == ERR_PACKER
}

/// Whether a decoded message matches the message bytes of a payload: the
/// decoded characters re-encode to exactly those bytes, or the bytes were not
/// valid UTF-8 and the message is empty.
pub open spec fn message_of(m: Seq<char>, tail: Seq<u8>) -> bool {
    if valid_utf8(tail) {
        encode_utf8(m) == tail
    } else {
        m == Seq::<char>::empty()
    }
}

/// The decoding relation for error payloads: `e` is what decoding `bytes`
/// yields.  A payload shorter than a code decodes to `Failed` with an empty
/// message; a payload with a code outside the taxonomy decodes to `Failed`
/// as well; every known code decodes to its own variant.
pub open spec fn decodes_to(bytes: Seq<u8>, e: Error) -> bool {
    if bytes.len() < 2 {
        e matches Error::Failed(m) && m@ == Seq::<char>::empty()
    } else {
        let c = spec_u16_from_le_bytes(bytes.take(2));
        let tail = bytes.skip(2);
        if c == ERR_UNKNOWN_HOST {
            e == Error::UnknownHost
        } else if c == ERR_INVALID_COMMAND {
            e == Error::InvalidCommand
        } else if c == ERR_INVALID_REGISTER {
            e == Error::InvalidRegister
        } else if c == ERR_INVALID_OFFSET {
            e == Error::InvalidOffset
        } else if c == ERR_INVALID_REPLY {
            e == Error::InvalidReply
        } else if c == ERR_OVERFLOW {
            e == Error::Overflow
        } else if c == ERR_INVALID_VERSION {
            e == Error::UnsupportedVersion
        } else if c == ERR_INVALID_DATA {
            e == Error::InvalidData
        } else if c == ERR_IO {
            e matches Error::Io(m) && message_of(m@, tail)
        } else if c == ERR_PACKER {
            e matches Error::Packer(m) && message_of(m@, tail)
        } else if c == ERR_FAILED {
            e matches Error::Failed(m) && message_of(m@, tail)
        } else {
            e matches Error::Failed(m) && m@ == Seq::<char>::empty()
        }
    }
}

/// Relies on `str::from_utf8`: on success the returned slice views exactly
/// the input bytes; on invalid UTF-8 this helper substitutes the empty string.
#[verifier::external_body]
fn utf8_or_empty(bytes: &[u8]) -> (r: String)
    ensures
        valid_utf8(bytes@) ==> encode_utf8(r@) == bytes@,
        !valid_utf8(bytes@) ==> r@ == Seq::<char>::empty(),
{
    core::str::from_utf8(bytes).unwrap_or_default().to_owned()
}

/// Encode an error into its wire form: code, then advisory message bytes.
pub fn encode_error(e: &Error) -> (r: Vec<u8>)
    ensures
        r@ == spec_encode_error(*e),
{
    let mut r = u16_to_le_bytes(e.code());
    match e {
        Error::Io(m) => {
            crate::push_bytes(&mut r, m.as_str().as_bytes());
        },
        Error::Packer(m) => {
            crate::push_bytes(&mut r, m.as_str().as_bytes());
        },
        Error::Failed(m) => {
            crate::push_bytes(&mut r, m.as_str().as_bytes());
        },
        _ => {
            proof {
                assert(r@ =~= spec_encode_error(*e));
            }
        },
    }
    r
}

/// Decode an error payload: read the 2-byte little-endian code, classify it,
/// and attach the rest of the payload as the advisory message where the
/// variant carries one.
pub fn decode_error(bytes: &[u8]) -> (e: Error)
    ensures
        decodes_to(bytes@, e),
{
    if bytes.len() < 2 {
        return Error::Failed(String::new());
    }
    let code_bytes = slice_subrange(bytes, 0, 2);
    proof {
        assert(code_bytes@ =~= bytes@.take(2));
    }
    let code = u16_from_le_bytes(code_bytes);
    let tail = slice_subrange(bytes, 2, bytes.len());
    if code == ERR_UNKNOWN_HOST {
        Error::UnknownHost
    } else if code == ERR_INVALID_COMMAND {
        Error::InvalidCommand
    } else if code == ERR_INVALID_REGISTER {
        Error::InvalidRegister
    } else if code == ERR_INVALID_OFFSET {
        Error::InvalidOffset
    } else if code == ERR_INVALID_REPLY {
        Error::InvalidReply
    } else if code == ERR_OVERFLOW {
        Error::Overflow
    } else if code == ERR_INVALID_VERSION {
        Error::UnsupportedVersion
    } else if code == ERR_INVALID_DATA {
        Error::InvalidData
    } else if code == ERR_IO {
        Error::Io(utf8_or_empty(tail))
    } else if code == ERR_PACKER {
        Error::Packer(utf8_or_empty(tail))
    } else if code == ERR_FAILED {
        Error::Failed(utf8_or_empty(tail))
    } else {
        Error::Failed(String::new())
    }
}

/// Round trip law: decoding the wire form of any error yields an error with
/// the same code.
pub proof fn lemma_error_code_round_trip(e: Error, d: Error)
    requires
        decodes_to(spec_encode_error(e), d),
    ensures
        d.code_spec() == e.code_spec(),
{
    lemma_auto_spec_u16_to_from_le_bytes();
    assert(spec_encode_error(e).take(2) =~= spec_u16_to_le_bytes(e.code_spec()));
}

} // verus!
