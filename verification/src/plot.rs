//! Plot file descriptors. A plot filename encodes
//! `<account_id>_<start_nonce>_<nonces>`; the file holds `nonces` nonces of
//! 4096 scoops of 64 bytes each, stored scoop-major. The descriptor here
//! carries the parsed identity and the read position; it plans every seek
//! and chunked read of one scoop region, while the file handles themselves
//! live with the caller.

use crate::digits::dec_chars;
use crate::digits::is_dec_digit;
use crate::digits::lemma_dec_chars_digits;
use crate::digits::lemma_parse_u64_roundtrip;
use crate::digits::parse_u64;
use crate::digits::spec_parse_u64;
use crate::digits::u64_to_string;
use vstd::prelude::*;
use vstd::string::StrSliceExecFns;
use vstd::string::StringExecFns;

verus! {

pub const SCOOPS_IN_NONCE: u64 = 4096;

pub const SHABAL256_HASH_SIZE: u64 = 32;

/// One scoop is two Shabal-256 hashes: 64 bytes.
pub const SCOOP_SIZE: u64 = SHABAL256_HASH_SIZE * 2;

/// On-disk bytes per nonce: 4096 scoops of 64 bytes.
pub const NONCE_SIZE: u64 = SCOOP_SIZE * SCOOPS_IN_NONCE;

/// Why a plot file was rejected at startup.
#[derive(PartialEq, Eq, Structural, Clone, Copy, Debug)]
pub enum PlotError {
    /// The filename does not encode `account_id_start_nonce_nonces`, or the
    /// encoded nonce range does not fit the nonce space.
    MalformedPlot,
    /// The file length differs from `nonces * 4096 * 64`.
    SizeMismatch,
}

/// Smallest index `>= from` at which `sep` occurs in `s`, or `s.len()` if
/// it does not occur there.
pub open spec fn find_from(s: Seq<char>, sep: char, from: int) -> int
    decreases s.len() - from,
{
    if from < 0 || from >= s.len() {
        s.len() as int
    } else if s[from] == sep {
        from
    } else {
        find_from(s, sep, from + 1)
    }
}

pub proof fn lemma_find_from_found(s: Seq<char>, sep: char, from: int, pos: int)
    requires
        0 <= from <= pos < s.len(),
        s[pos] == sep,
        forall|k: int| from <= k < pos ==> s[k] != sep,
    ensures
        find_from(s, sep, from) == pos,
    decreases pos - from,
{
    if from < pos {
        lemma_find_from_found(s, sep, from + 1, pos);
    }
}

pub proof fn lemma_find_from_none(s: Seq<char>, sep: char, from: int)
    requires
        0 <= from,
        forall|k: int| from <= k < s.len() ==> s[k] != sep,
    ensures
        find_from(s, sep, from) == s.len(),
    decreases s.len() - from,
{
    if from < s.len() {
        lemma_find_from_none(s, sep, from + 1);
    }
}

/// What parsing a plot filename yields: the first three `_`-separated
/// components as `u64` values, trailing components ignored; `None` when
/// fewer than three components exist or one is not a `u64` numeral.
pub open spec fn spec_parse_plot_filename(s: Seq<char>) -> Option<(u64, u64, u64)> {
    let i = find_from(s, '_', 0);
    let j = find_from(s, '_', i + 1);
    let k = find_from(s, '_', j + 1);
    if i == s.len() || j == s.len() {
        None
    } else {
        match (
            spec_parse_u64(s.subrange(0, i)),
            spec_parse_u64(s.subrange(i + 1, j)),
            spec_parse_u64(s.subrange(j + 1, k)),
        ) {
            (Some(a), Some(b), Some(c)) => Some((a, b, c)),
            _ => None,
        }
    }
}

/// Smallest index `>= from` at which `sep` occurs, or the length.
fn find_char_from(s: &str, sep: char, from: usize) -> (r: usize)
    requires
        from <= s@.len(),
    ensures
        r == find_from(s@, sep, from as int),
        from <= r <= s@.len(),
{
    let n: usize = s.unicode_len();
    let mut i: usize = from;
    while i < n
        invariant
            from <= i <= n,
            n == s@.len(),
            find_from(s@, sep, from as int) == find_from(s@, sep, i as int),
        decreases n - i,
    {
        if s.get_char(i) == sep {
            return i;
        }
        i = i + 1;
    }
    i
}

/// Parses `<account_id>_<start_nonce>_<nonces>` out of a plot filename;
/// anything after a third `_` is ignored.
pub fn parse_plot_filename(name: &str) -> (r: Option<(u64, u64, u64)>)
    ensures
        r == spec_parse_plot_filename(name@),
{
    let n: usize = name.unicode_len();
    let i = find_char_from(name, '_', 0);
    if i == n {
        return None;
    }
    let j = find_char_from(name, '_', i + 1);
    if j == n {
        return None;
    }
    let k = find_char_from(name, '_', j + 1);
    let p0 = name.substring_char(0, i);
    let p1 = name.substring_char(i + 1, j);
    let p2 = name.substring_char(j + 1, k);
    let a = parse_u64(p0);
    let b = parse_u64(p1);
    let c = parse_u64(p2);
    match (a, b, c) {
        (Some(a), Some(b), Some(c)) => Some((a, b, c)),
        _ => None,
    }
}

/// The canonical filename for a plot: `account_id_start_nonce_nonces`.
pub open spec fn spec_plot_filename(account_id: u64, start_nonce: u64, nonces: u64) -> Seq<char> {
    dec_chars(account_id as nat) + seq!['_'] + dec_chars(start_nonce as nat) + seq!['_']
        + dec_chars(nonces as nat)
}

/// Renders the canonical filename for a plot.
pub fn plot_filename(account_id: u64, start_nonce: u64, nonces: u64) -> (r: String)
    ensures
        r@ == spec_plot_filename(account_id, start_nonce, nonces),
{
    let mut r = u64_to_string(account_id);
    r.append("_");
    let s1 = u64_to_string(start_nonce);
    r.append(s1.as_str());
    r.append("_");
    let s2 = u64_to_string(nonces);
    r.append(s2.as_str());
    proof {
        reveal_strlit("_");
        assert(r@ =~= spec_plot_filename(account_id, start_nonce, nonces));
    }
    r
}

/// Round trip: the canonical filename of `(a, s, n)` parses back to
/// exactly `(a, s, n)`.
pub proof fn lemma_plot_filename_roundtrip(a: u64, s: u64, n: u64)
    ensures
        spec_parse_plot_filename(spec_plot_filename(a, s, n)) == Some((a, s, n)),
{
    let da = dec_chars(a as nat);
    let ds = dec_chars(s as nat);
    let dn = dec_chars(n as nat);
    lemma_dec_chars_digits(a as nat);
    lemma_dec_chars_digits(s as nat);
    lemma_dec_chars_digits(n as nat);
    let full = spec_plot_filename(a, s, n);
    let i = da.len() as int;
    let j: int = da.len() as int + 1 + ds.len() as int;
    assert forall|c: char| is_dec_digit(c) implies c != '_' by {
        assert('_' as int == 95);
    }
    assert(full[i] == '_');
    assert(full[j as int] == '_');
    assert forall|k: int| 0 <= k < i implies full[k] != '_' by {
        assert(full[k] == da[k]);
        assert(is_dec_digit(da[k]));
    }
    lemma_find_from_found(full, '_', 0, i);
    assert forall|k: int| i + 1 <= k < j implies full[k] != '_' by {
        assert(full[k] == ds[k - i - 1]);
        assert(is_dec_digit(ds[k - i - 1]));
    }
    lemma_find_from_found(full, '_', i + 1, j as int);
    assert forall|k: int| j + 1 <= k < full.len() implies full[k] != '_' by {
        assert(full[k] == dn[k - j - 1]);
        assert(is_dec_digit(dn[k - j - 1]));
    }
    lemma_find_from_none(full, '_', j + 1);
    assert(full.subrange(0, i) =~= da);
    assert(full.subrange(i + 1, j as int) =~= ds);
    assert(full.subrange(j + 1, full.len() as int) =~= dn);
    lemma_parse_u64_roundtrip(a);
    lemma_parse_u64_roundtrip(s);
    lemma_parse_u64_roundtrip(n);
}

/// The plan for one chunked read of the current scoop region: how many
/// bytes to read, through which handle, the nonce index of the chunk's
/// first scoop, whether the region is now consumed, and where both handles
/// must be re-seeked when it is not.
pub struct ReadPlan {
    pub bytes_to_read: usize,
    pub start_nonce: u64,
    pub finished: bool,
    pub use_direct: bool,
    pub seek_to: Option<u64>,
}

/// Descriptor of one plot file: its parsed identity and the read cursor
/// within the scoop region of the active round.
pub struct Plot {
    pub account_id: u64,
    pub start_nonce: u64,
    pub nonces: u64,
    pub read_offset: u64,
    pub use_direct_io: bool,
}

impl Plot {
    /// Bytes of one scoop across all nonces of this plot: the region a
    /// round reads.
    pub open spec fn scoop_region(&self) -> int {
        self.nonces * SCOOP_SIZE
    }

    /// Well-formedness: the file size and the nonce range fit the number
    /// spaces, and the cursor sits on a scoop boundary inside the region.
    pub open spec fn wf(&self) -> bool {
        &&& self.nonces * NONCE_SIZE <= u64::MAX
        &&& self.start_nonce + self.nonces <= u64::MAX as int + 1
        &&& self.read_offset <= self.scoop_region()
        &&& self.read_offset as int % (SCOOP_SIZE as int) == 0
    }

    /// Validates a plot's filename against its observed file length and
    /// builds the descriptor. Fails with `MalformedPlot` when the name does
    /// not encode three `u64` components, or when the encoded range
    /// `[start_nonce, start_nonce + nonces)` leaves the `u64` nonce space —
    /// such a plot names nonces that do not exist, and reading it would
    /// overflow the nonce arithmetic. Fails with `SizeMismatch` when the
    /// length is not `nonces * 4096 * 64`.
    pub fn new(file_name: &str, file_size: u64, use_direct_io: bool) -> (r: Result<
        Plot,
        PlotError,
    >)
        ensures
            match spec_parse_plot_filename(file_name@) {
                None => r == Err::<Plot, PlotError>(PlotError::MalformedPlot),
                Some((a, s, n)) => {
                    if s + n > u64::MAX as int + 1 {
                        r == Err::<Plot, PlotError>(PlotError::MalformedPlot)
                    } else if n * NONCE_SIZE > u64::MAX || file_size != n * NONCE_SIZE {
                        r == Err::<Plot, PlotError>(PlotError::SizeMismatch)
                    } else {
                        match r {
                            Err(_) => false,
                            Ok(p) => {
                                &&& p.account_id == a
                                &&& p.start_nonce == s
                                &&& p.nonces == n
                                &&& p.read_offset == 0
                                &&& p.use_direct_io == use_direct_io
                                &&& p.wf()
                            },
                        }
                    }
                },
            },
    {
        let parsed = parse_plot_filename(file_name);
        match parsed {
            None => Err(PlotError::MalformedPlot),
            Some((account_id, start_nonce, nonces)) => {
                if nonces > 0 && start_nonce > u64::MAX - (nonces - 1) {
                    return Err(PlotError::MalformedPlot);
                }
                let expected = match nonces.checked_mul(NONCE_SIZE) {
                    None => {
                        return Err(PlotError::SizeMismatch);
                    },
                    Some(e) => e,
                };
                if file_size != expected {
                    return Err(PlotError::SizeMismatch);
                }
                Ok(
                    Plot {
                        account_id,
                        start_nonce,
                        nonces,
                        read_offset: 0,
                        use_direct_io,
                    },
                )
            },
        }
    }

    /// Starts a round: resets the cursor and returns the byte offset of
    /// scoop `scoop` of this plot, to which both file handles must seek.
    pub fn prepare(&mut self, scoop: u32) -> (seek_pos: u64)
        requires
            old(self).wf(),
            scoop < SCOOPS_IN_NONCE,
        ensures
            final(self).wf(),
            final(self).read_offset == 0,
            final(self).account_id == old(self).account_id,
            final(self).start_nonce == old(self).start_nonce,
            final(self).nonces == old(self).nonces,
            final(self).use_direct_io == old(self).use_direct_io,
            seek_pos == scoop * old(self).nonces * SCOOP_SIZE,
    {
        self.read_offset = 0;
        proof {
            lemma_scoop_base_fits(scoop as int, self.nonces as int);
        }
        (scoop as u64) * self.nonces * SCOOP_SIZE
    }

    /// Plans the next chunk of the current scoop region: reads
    /// `min(buffer_cap, remaining)` bytes, through the direct handle
    /// exactly when direct I/O is enabled and the length is a multiple of
    /// 512; reports the nonce index of the chunk's first scoop and whether
    /// the region is now consumed; when it is not, both handles re-seek to
    /// `seek_to`.
    pub fn read(&mut self, buffer_cap: usize, scoop: u32) -> (r: ReadPlan)
        requires
            old(self).wf(),
            old(self).read_offset < old(self).scoop_region(),
            buffer_cap > 0,
            buffer_cap % 64 == 0,
            scoop < SCOOPS_IN_NONCE,
        ensures
            final(self).wf(),
            final(self).account_id == old(self).account_id,
            final(self).start_nonce == old(self).start_nonce,
            final(self).nonces == old(self).nonces,
            final(self).use_direct_io == old(self).use_direct_io,
            r.bytes_to_read == if buffer_cap <= old(self).scoop_region() - old(
                self,
            ).read_offset {
                buffer_cap as int
            } else {
                old(self).scoop_region() - old(self).read_offset
            },
            r.bytes_to_read > 0,
            r.bytes_to_read % 64 == 0,
            r.start_nonce == old(self).start_nonce + old(self).read_offset / (
            SCOOP_SIZE as u64),
            final(self).read_offset == old(self).read_offset + r.bytes_to_read,
            final(self).read_offset <= final(self).scoop_region(),
            r.finished <==> final(self).read_offset == final(self).scoop_region(),
            r.use_direct == (old(self).use_direct_io && r.bytes_to_read % 512 == 0),
            r.seek_to == if r.finished {
                Option::<u64>::None
            } else {
                Some(
                    (scoop * old(self).nonces * SCOOP_SIZE + old(self).read_offset
                        + r.bytes_to_read) as u64,
                )
            },
    {
        proof {
            lemma_region_fits(self.nonces as int);
        }
        let region: u64 = self.nonces * SCOOP_SIZE;
        let remaining: u64 = region - self.read_offset;
        proof {
            lemma_mod_sub(region as int, self.read_offset as int, 64);
        }
        let bytes: usize = if (buffer_cap as u64) <= remaining {
            buffer_cap
        } else {
            remaining as usize
        };
        proof {
            lemma_div_strict(self.read_offset as int, self.nonces as int);
        }
        let start_nonce: u64 = self.start_nonce + self.read_offset / SCOOP_SIZE;
        self.read_offset = self.read_offset + bytes as u64;
        let finished = self.read_offset >= region;
        let use_direct = self.use_direct_io && bytes % 512 == 0;
        let seek_to = if finished {
            None
        } else {
            proof {
                lemma_scoop_base_fits(scoop as int, self.nonces as int);
            }
            let base: u64 = (scoop as u64) * self.nonces * SCOOP_SIZE;
            Some(base + self.read_offset)
        };
        proof {
            lemma_mod_add(old(self).read_offset as int, bytes as int, 64);
        }
        ReadPlan { bytes_to_read: bytes, start_nonce, finished, use_direct, seek_to }
    }
}

/// The byte offset of a scoop's region start fits in `u64`, and so does
/// that offset plus anything inside the region.
proof fn lemma_scoop_base_fits(scoop: int, nonces: int)
    requires
        0 <= scoop < SCOOPS_IN_NONCE,
        0 <= nonces,
        nonces * NONCE_SIZE <= u64::MAX,
    ensures
        scoop * nonces * SCOOP_SIZE + nonces * SCOOP_SIZE <= u64::MAX,
        0 <= scoop * nonces * SCOOP_SIZE,
        0 <= scoop * nonces,
{
    assert(scoop * nonces * 64 + nonces * 64 <= 4096 * (nonces * 64) && 0 <= scoop * nonces * 64
        && 0 <= scoop * nonces && 4096 * (nonces * 64) == nonces * 262144) by (nonlinear_arith)
        requires
            0 <= scoop < 4096,
            0 <= nonces,
    ;
}

/// The scoop region's byte count fits in `u64` and is a multiple of 64.
proof fn lemma_region_fits(nonces: int)
    requires
        0 <= nonces,
        nonces * NONCE_SIZE <= u64::MAX,
    ensures
        0 <= nonces * SCOOP_SIZE <= u64::MAX,
        (nonces * SCOOP_SIZE) % 64 == 0,
{
    assert(0 <= nonces * 64 <= nonces * 262144 && (nonces * 64) % 64 == 0) by (nonlinear_arith)
        requires
            0 <= nonces,
    ;
}

/// Subtracting one multiple of 64 from another leaves a multiple of 64.
proof fn lemma_mod_sub(a: int, b: int, m: int)
    requires
        m > 0,
        0 <= b <= a,
        a % m == 0,
        b % m == 0,
    ensures
        (a - b) % m == 0,
{
    vstd::arithmetic::div_mod::lemma_sub_mod_noop(a, b, m);
    vstd::arithmetic::div_mod::lemma_small_mod(0, m as nat);
}

/// Adding two multiples of 64 yields a multiple of 64.
proof fn lemma_mod_add(a: int, b: int, m: int)
    requires
        m > 0,
        0 <= a,
        0 <= b,
        a % m == 0,
        b % m == 0,
    ensures
        (a + b) % m == 0,
{
    vstd::arithmetic::div_mod::lemma_add_mod_noop(a, b, m);
    vstd::arithmetic::div_mod::lemma_small_mod(0, m as nat);
}

/// A cursor strictly inside the region indexes a nonce strictly below
/// `nonces`.
proof fn lemma_div_strict(offset: int, nonces: int)
    requires
        0 <= offset,
        offset < nonces * SCOOP_SIZE,
    ensures
        offset / (SCOOP_SIZE as int) < nonces,
{
    assert(offset / 64 < nonces) by (nonlinear_arith)
        requires
            0 <= offset && offset < nonces * 64,
    ;
}

/// One read's effect on the cursor: advance by the chunk, capped at the
/// region's end.
pub open spec fn read_advance(offset: nat, region: nat, cap: nat) -> nat {
    if offset + cap <= region {
        offset + cap
    } else {
        region
    }
}

/// A run of reads over one scoop region: `offs` are the successive cursor
/// values, `caps` the chunk capacities handed to each read. Every read
/// starts strictly inside the region with a nonempty buffer.
pub open spec fn valid_read_trace(offs: Seq<nat>, caps: Seq<nat>, region: nat) -> bool {
    &&& offs.len() == caps.len() + 1
    &&& offs[0] == 0
    &&& forall|i: int|
        0 <= i < caps.len() ==> (#[trigger] offs[i]) < region && caps[i] > 0 && offs[i + 1]
            == read_advance(offs[i], region, caps[i])
}

/// Along any read trace the cursor strictly increases and never leaves the
/// region.
pub proof fn lemma_trace_monotone(offs: Seq<nat>, caps: Seq<nat>, region: nat, i: int, j: int)
    requires
        valid_read_trace(offs, caps, region),
        0 <= i < j < offs.len(),
    ensures
        offs[i] < offs[j],
        offs[j] <= region,
    decreases j - i,
{
    if i + 1 < j {
        lemma_trace_monotone(offs, caps, region, i, j - 1);
    }
}

/// Consuming the whole region lands the cursor on `nonces * 64` whatever
/// the chunk capacities were: two runs over one region that both finish
/// end at the same cursor.
pub proof fn lemma_full_consumption_chunk_independent(
    offs1: Seq<nat>,
    caps1: Seq<nat>,
    offs2: Seq<nat>,
    caps2: Seq<nat>,
    region: nat,
)
    requires
        valid_read_trace(offs1, caps1, region),
        valid_read_trace(offs2, caps2, region),
        offs1.last() == region,
        offs2.last() == region,
    ensures
        offs1.last() == offs2.last(),
{
}

/// Only the last read of a trace can consume the region: every read that
/// another read follows left the cursor strictly inside it. So `finished`
/// is reported exactly once per plot per round, always with the cursor at
/// `nonces * 64` — whatever the chunk sizes were.
pub proof fn lemma_finished_read_is_last(
    offs: Seq<nat>,
    caps: Seq<nat>,
    region: nat,
    i: int,
    j: int,
)
    requires
        valid_read_trace(offs, caps, region),
        0 <= i < j < caps.len(),
    ensures
        offs[i + 1] < region,
{
    assert(offs[j] < region);
    if i + 1 < j {
        lemma_trace_monotone(offs, caps, region, i + 1, j);
    }
}

} // verus!
