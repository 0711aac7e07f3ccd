//! A compact request/reply messaging library for peers that exchange typed
//! commands over any reliable byte stream or datagram socket.
//!
//! Peers are addressed by numeric host identifiers and exchange fixed-layout
//! little-endian frames: ping, register read, register write (confirmed or
//! fire-and-forget), and user-defined extensions.  Each peer holds a *shared
//! context*: a numerically indexed bank of byte-addressable registers that
//! remote clients can read or write at arbitrary offsets.

use vstd::prelude::*;

pub mod comm;
pub mod context;
pub mod error;
pub mod host;
pub mod io;

pub use error::Error;

verus! {

/// Append every byte of `src` to `dst`, in order.
pub(crate) fn push_bytes(dst: &mut Vec<u8>, src: &[u8])
    ensures
        final(dst)@ == old(dst)@ + src@,
{
    let mut i: usize = 0;
    while i < src.len()
        invariant
            i <= src.len(),
            dst@ == old(dst)@ + src@.take(i as int),
        decreases src.len() - i,
    {
        let b = src[i];
        dst.push(b);
        proof {
            assert(old(dst)@ + src@.take(i + 1) =~= (old(dst)@ + src@.take(i as int)).push(
                src@[i as int],
            ));
        }
        i = i + 1;
    }
    proof {
        assert(src@.take(src@.len() as int) =~= src@);
    }
}

} // verus!
