//! The hashing worker's verified half: padding a chunk to whole SIMD
//! lanes and turning a kernel result into the `NonceData` message for the
//! coordinator. The deadline-search kernel itself is an external
//! cryptographic primitive; everything here holds for whatever values it
//! returns.

use crate::plot::Plot;
use crate::plot::SCOOP_SIZE;
use crate::reader::ReadReply;
use vstd::prelude::*;

verus! {

/// A candidate found by a worker: the best deadline of one chunk, as an
/// absolute nonce index, tagged with the round's height.
/// `reader_task_processed` mirrors the reply's `finished` flag, so the
/// coordinator can count completed plots.
pub struct NonceData {
    pub height: u64,
    pub deadline: u64,
    pub nonce: u64,
    pub reader_task_processed: bool,
}

/// Bytes the tail of an `l`-byte chunk needs to reach the next multiple
/// of `p`.
pub open spec fn spec_pad_len(l: int, p: int) -> int {
    if l % p == 0 {
        0
    } else {
        p - l % p
    }
}

/// Pads the tail of the `l` valid bytes of `b` up to the next multiple of
/// `p` by replicating `b[0]`, and returns the number of padding bytes;
/// an already aligned length, `l == 0` included, is left alone. The valid
/// prefix is untouched, so the padding never changes which deadlines
/// exist over the real scoops.
pub fn pad(b: &mut Vec<u8>, l: usize, p: usize) -> (r: usize)
    requires
        p > 0,
        l <= old(b).len(),
        l + spec_pad_len(l as int, p as int) <= old(b).len(),
    ensures
        r == spec_pad_len(l as int, p as int),
        (l + r) % (p as int) == 0,
        final(b).len() == old(b).len(),
        forall|i: int| 0 <= i < l ==> final(b)[i] == old(b)[i],
        forall|i: int| l <= i < l + r ==> final(b)[i] == old(b)[0],
        forall|i: int| l + r <= i < final(b).len() ==> final(b)[i] == old(b)[i],
{
    let rem = l % p;
    if rem == 0 {
        return 0;
    }
    let r = p - rem;
    let filler = b[0];
    let mut i: usize = l;
    while i < l + r
        invariant
            l <= i <= l + r,
            l + r <= b.len(),
            b.len() == old(b).len(),
            filler == old(b)[0],
            forall|k: int| 0 <= k < l ==> b[k] == old(b)[k],
            forall|k: int| l <= k < i ==> b[k] == filler,
            forall|k: int| i <= k < b.len() ==> b[k] == old(b)[k],
        decreases l + r - i,
    {
        b.set(i, filler);
        i = i + 1;
    }
    proof {
        vstd::arithmetic::div_mod::lemma_add_mod_noop(l as int, r as int, p as int);
        vstd::arithmetic::div_mod::lemma_small_mod(r as nat, p as nat);
        vstd::arithmetic::div_mod::lemma_mod_self_0(p as int);
    }
    r
}

/// Builds the coordinator's message from a kernel result over one reply.
/// The kernel searched `reply.len / 64` real scoops plus padding; an
/// offset inside the padding names no real nonce, so it is reported as no
/// candidate (`u64::MAX` never improves a best deadline). Real offsets
/// name the absolute nonce `start_nonce + offset`.
pub fn process_read_reply(reply: &ReadReply, best_deadline: u64, best_offset: u64) -> (nd:
    NonceData)
    requires
        reply.len > 0,
        reply.start_nonce + reply.len as int / 64 <= u64::MAX as int + 1,
    ensures
        nd.height == reply.height,
        nd.reader_task_processed == reply.finished,
        best_offset < reply.len as int / 64 ==> nd.deadline == best_deadline && nd.nonce
            == reply.start_nonce + best_offset,
        best_offset >= reply.len as int / 64 ==> nd.deadline == u64::MAX && nd.nonce
            == reply.start_nonce,
{
    let real_scoops: u64 = (reply.len as u64) / 64;
    if best_offset < real_scoops {
        NonceData {
            height: reply.height,
            deadline: best_deadline,
            nonce: reply.start_nonce + best_offset,
            reader_task_processed: reply.finished,
        }
    } else {
        NonceData {
            height: reply.height,
            deadline: u64::MAX,
            nonce: reply.start_nonce,
            reader_task_processed: reply.finished,
        }
    }
}

/// Every candidate the worker emits names a nonce of the plot its chunk
/// was read from: with `plot` as the descriptor at the moment of the
/// read, a reply carrying that read's chunk, and a candidate built from
/// it, the candidate's nonce lies in `[start_nonce, start_nonce + nonces)`.
pub proof fn lemma_candidate_within_plot(
    plot: Plot,
    cap: int,
    reply_len: int,
    reply_start: u64,
    nonce: u64,
    best_offset: int,
)
    requires
        plot.wf(),
        0 <= plot.read_offset < plot.scoop_region(),
        cap > 0,
        reply_len == if cap <= plot.scoop_region() - plot.read_offset {
            cap
        } else {
            plot.scoop_region() - plot.read_offset
        },
        reply_start == plot.start_nonce + plot.read_offset / (SCOOP_SIZE as u64),
        0 <= best_offset,
        nonce == if best_offset < reply_len / 64 {
            reply_start + best_offset
        } else {
            reply_start as int
        },
    ensures
        plot.start_nonce <= nonce < plot.start_nonce + plot.nonces,
{
    let s = plot.start_nonce as int;
    let n = plot.nonces as int;
    let o = plot.read_offset as int;
    assert(plot.scoop_region() == n * 64);
    if best_offset < reply_len / 64 {
        lemma_nonce_within_plot(s, n, o, reply_len, best_offset);
    } else {
        assert(0 <= o / 64 < n) by (nonlinear_arith)
            requires
                0 <= o && o < n * 64,
        ;
    }
}

/// The arithmetic core of the range law: a chunk of `bytes` bytes read at
/// cursor `o` of a plot holding `n` nonces from `s` spans nonces
/// `s + o/64` up to at most `s + n`, so any offset inside the chunk names
/// a nonce of the plot.
pub proof fn lemma_nonce_within_plot(s: int, n: int, o: int, bytes: int, off: int)
    requires
        0 <= s,
        0 <= n,
        0 <= o,
        o % 64 == 0,
        o < n * 64,
        0 < bytes <= n * 64 - o,
        0 <= off < bytes / 64,
    ensures
        s <= s + o / 64 + off < s + n,
        s + o / 64 + bytes / 64 <= s + n,
{
    assert(o / 64 + bytes / 64 <= n && 0 <= o / 64) by (nonlinear_arith)
        requires
            0 <= o && 0 <= bytes && 0 <= n && o % 64 == 0 && bytes <= n * 64 - o,
    ;
}

} // verus!
