//! The message a reader sends a hashing worker: one chunk of a plot's
//! scoop region in a pool buffer, with the round and position data the
//! worker needs. A reply owns its buffer; handing the reply over hands the
//! buffer over, so reader and worker never hold the same buffer at once.

use vstd::prelude::*;

verus! {

/// One chunk read from a plot for the active round. `len == 0` is the
/// drain sentinel: the buffer carries no data and goes straight back to
/// the pool.
pub struct ReadReply {
    /// The pool buffer holding the chunk; owned, never aliased.
    pub buffer: Vec<u8>,
    /// Valid bytes at the front of `buffer`; 0 for a drain sentinel.
    pub len: usize,
    /// Absolute nonce index of the scoop at `buffer[0]`.
    pub start_nonce: u64,
    /// Height of the round this chunk was read for.
    pub height: u64,
    /// The round's 32-byte generation signature.
    pub gensig: Vec<u8>,
    /// True exactly for the last chunk of this plot in this round.
    pub finished: bool,
}

impl ReadReply {
    /// A reply is well-formed when its data fits its buffer, whole scoops
    /// only, and the signature has its protocol size.
    pub open spec fn wf(&self) -> bool {
        &&& self.len <= self.buffer.len()
        &&& self.len % 64 == 0
        &&& self.gensig.len() == 32
    }
}

} // verus!
