//! The round coordinator: tracks the active round, filters worker
//! candidates by height and by the acceptable-deadline cap, keeps the best
//! deadline seen, and decides which candidates become submissions. Also
//! decodes the round's hex generation signature into its 32 bytes.

use crate::digits::is_dec_digit;
use crate::worker::NonceData;
use vstd::prelude::*;

verus! {

/// True of the ASCII hexadecimal digit characters.
pub open spec fn is_hex_digit(c: char) -> bool {
    is_dec_digit(c) || (97 <= c as int && c as int <= 102) || (65 <= c as int && c as int <= 70)
}

/// Numeric value of a hexadecimal digit character.
pub open spec fn hex_val(c: char) -> nat
    recommends
        is_hex_digit(c),
{
    if is_dec_digit(c) {
        (c as int - 48) as nat
    } else if 97 <= c as int && c as int <= 102 {
        (c as int - 87) as nat
    } else {
        (c as int - 55) as nat
    }
}

/// What decoding a hex string yields: the byte of each digit pair, for an
/// even-length string of hex digits; nothing otherwise.
pub open spec fn spec_decode_hex(s: Seq<char>) -> Option<Seq<u8>> {
    if s.len() % 2 == 0 && (forall|i: int| 0 <= i < s.len() ==> is_hex_digit(#[trigger] s[i])) {
        Some(
            Seq::new(
                (s.len() / 2) as nat,
                |i: int| (hex_val(s[2 * i]) * 16 + hex_val(s[2 * i + 1])) as u8,
            ),
        )
    } else {
        None
    }
}

/// Value of one hex digit character, or `None` for any other character.
fn hex_digit_val(c: char) -> (r: Option<u8>)
    ensures
        r == if is_hex_digit(c) {
            Some(hex_val(c) as u8)
        } else {
            Option::<u8>::None
        },
{
    let cv: u32 = c as u32;
    if 48 <= cv && cv <= 57 {
        Some((cv - 48) as u8)
    } else if 97 <= cv && cv <= 102 {
        Some((cv - 87) as u8)
    } else if 65 <= cv && cv <= 70 {
        Some((cv - 55) as u8)
    } else {
        None
    }
}

/// Decodes an even-length hex string into its bytes; rejects anything
/// else.
pub fn decode_hex(s: &str) -> (r: Option<Vec<u8>>)
    ensures
        match r {
            Some(v) => spec_decode_hex(s@) == Some(v@),
            None => spec_decode_hex(s@) is None,
        },
{
    let n: usize = s.unicode_len();
    if n % 2 != 0 {
        return None;
    }
    let mut out: Vec<u8> = Vec::new();
    let mut i: usize = 0;
    while i < n / 2
        invariant
            0 <= i <= n / 2,
            n == s@.len(),
            n % 2 == 0,
            out.len() == i,
            forall|k: int| 0 <= k < 2 * i ==> is_hex_digit(#[trigger] s@[k]),
            forall|k: int|
                0 <= k < i ==> out[k] == (hex_val(s@[2 * k]) * 16 + hex_val(s@[2 * k + 1])) as u8,
        decreases n / 2 - i,
    {
        let c1 = s.get_char(2 * i);
        let c2 = s.get_char(2 * i + 1);
        let v1 = match hex_digit_val(c1) {
            Some(v) => v,
            None => {
                return None;
            },
        };
        let v2 = match hex_digit_val(c2) {
            Some(v) => v,
            None => {
                return None;
            },
        };
        out.push(v1 * 16 + v2);
        i = i + 1;
    }
    proof {
        let expected = spec_decode_hex(s@);
        assert(expected matches Some(b) && b =~= out@);
    }
    Some(out)
}

/// Decodes a round's generation signature: exactly 32 bytes of hex.
pub fn decode_gensig(s: &str) -> (r: Option<Vec<u8>>)
    ensures
        match r {
            Some(v) => spec_decode_hex(s@) == Some(v@) && v@.len() == 32,
            None => match spec_decode_hex(s@) {
                Some(b) => b.len() != 32,
                None => true,
            },
        },
{
    match decode_hex(s) {
        Some(v) => {
            if v.len() == 32 {
                Some(v)
            } else {
                None
            }
        },
        None => None,
    }
}

/// The identity a plot lends its nonces: used to attribute a candidate
/// nonce to the account that owns the plot holding it.
pub struct PlotOwner {
    pub account_id: u64,
    pub start_nonce: u64,
    pub nonces: u64,
}

/// The active round as the coordinator tracks it.
pub struct Round {
    pub height: u64,
    pub base_target: u64,
    pub target_deadline: u64,
    pub scoop: u32,
    pub gensig: Vec<u8>,
}

/// A submission the coordinator dispatches for the submitter to deliver.
pub struct Submission {
    pub account_id: u64,
    pub nonce: u64,
    pub height: u64,
    pub deadline: u64,
}

/// `nonce` lies in the range plot `p` holds.
pub open spec fn owns_nonce(p: PlotOwner, nonce: u64) -> bool {
    p.start_nonce <= nonce && nonce < p.start_nonce + p.nonces
}

/// Account of the first plot (from `from` on) whose range holds `nonce`.
pub open spec fn spec_account_from(plots: Seq<PlotOwner>, nonce: u64, from: int) -> Option<u64>
    decreases plots.len() - from,
{
    if from < 0 || from >= plots.len() {
        None
    } else if owns_nonce(plots[from], nonce) {
        Some(plots[from].account_id)
    } else {
        spec_account_from(plots, nonce, from + 1)
    }
}

/// Account of the first plot whose nonce range holds `nonce`.
pub open spec fn spec_account_for_nonce(plots: Seq<PlotOwner>, nonce: u64) -> Option<u64> {
    spec_account_from(plots, nonce, 0)
}

/// Looks up which account owns `nonce`.
pub fn account_for_nonce(plots: &Vec<PlotOwner>, nonce: u64) -> (r: Option<u64>)
    ensures
        r == spec_account_for_nonce(plots@, nonce),
{
    let mut i: usize = 0;
    while i < plots.len()
        invariant
            0 <= i <= plots.len(),
            spec_account_from(plots@, nonce, 0) == spec_account_from(plots@, nonce, i as int),
        decreases plots.len() - i,
    {
        let p = &plots[i];
        if p.start_nonce <= nonce && nonce - p.start_nonce < p.nonces {
            return Some(p.account_id);
        }
        i = i + 1;
    }
    None
}

/// The acceptable-deadline cap of a round: `target_deadline` scaled by
/// `base_target`, saturating at `u64::MAX`.
pub open spec fn spec_scaled_target(r: Round) -> int {
    if r.target_deadline * r.base_target > u64::MAX {
        u64::MAX as int
    } else {
        r.target_deadline * r.base_target
    }
}

/// The coordinator's state: the plots of this miner, the active round if
/// any, and the best deadline seen for it.
pub struct Coordinator {
    pub plots: Vec<PlotOwner>,
    pub round: Option<Round>,
    pub best_deadline: u64,
}

/// A candidate improves the active round: it carries the round's height,
/// beats the best deadline so far, and passes the acceptable-deadline cap.
pub open spec fn spec_accepts(c: Coordinator, nd: NonceData) -> bool {
    match c.round {
        None => false,
        Some(r) => nd.height == r.height && nd.deadline < c.best_deadline && nd.deadline
            <= spec_scaled_target(r),
    }
}

/// The submission a candidate triggers: an accepted candidate is submitted
/// for the account owning its nonce; everything else is dropped.
pub open spec fn spec_submission_for(c: Coordinator, nd: NonceData) -> Option<Submission> {
    if spec_accepts(c, nd) {
        match spec_account_for_nonce(c.plots@, nd.nonce) {
            Some(a) => Some(
                Submission { account_id: a, nonce: nd.nonce, height: nd.height, deadline: nd.deadline },
            ),
            None => None,
        }
    } else {
        None
    }
}

/// A mining-info poll starts a new round exactly when its generation
/// signature differs from the active round's.
pub open spec fn spec_new_round(c: Coordinator, gensig: Seq<u8>) -> bool {
    match c.round {
        None => true,
        Some(r) => r.gensig@ != gensig,
    }
}

/// Byte-for-byte equality of two byte vectors.
fn bytes_eq(a: &Vec<u8>, b: &Vec<u8>) -> (r: bool)
    ensures
        r == (a@ == b@),
{
    if a.len() != b.len() {
        assert(a@ != b@);
        return false;
    }
    let mut i: usize = 0;
    while i < a.len()
        invariant
            0 <= i <= a.len(),
            a.len() == b.len(),
            forall|k: int| 0 <= k < i ==> a@[k] == b@[k],
        decreases a.len() - i,
    {
        if a[i] != b[i] {
            return false;
        }
        i = i + 1;
    }
    proof {
        assert(a@ =~= b@);
    }
    true
}

impl Coordinator {
    /// A coordinator that has seen no round yet.
    pub fn new(plots: Vec<PlotOwner>) -> (r: Coordinator)
        ensures
            r.plots == plots,
            r.round is None,
            r.best_deadline == u64::MAX,
    {
        Coordinator { plots, round: None, best_deadline: u64::MAX }
    }

    /// Handles one mining-info poll. Starts a new round exactly when the
    /// generation signature changed: the new `(height, base_target,
    /// target_deadline, scoop, gensig)` become active and the best
    /// deadline resets; otherwise nothing changes.
    pub fn on_mining_info(
        &mut self,
        height: u64,
        base_target: u64,
        target_deadline: u64,
        scoop: u32,
        gensig: Vec<u8>,
    ) -> (new_round: bool)
        ensures
            new_round == spec_new_round(*old(self), gensig@),
            final(self).plots == old(self).plots,
            new_round ==> final(self).round == Some(
                Round { height, base_target, target_deadline, scoop, gensig },
            ) && final(self).best_deadline == u64::MAX,
            !new_round ==> final(self).round == old(self).round && final(self).best_deadline == old(
                self,
            ).best_deadline,
    {
        let changed = match &self.round {
            None => true,
            Some(r) => !bytes_eq(&r.gensig, &gensig),
        };
        if changed {
            self.round = Some(Round { height, base_target, target_deadline, scoop, gensig });
            self.best_deadline = u64::MAX;
        }
        changed
    }

    /// Handles one worker candidate. Candidates of another height are
    /// stale and dropped; an accepted candidate becomes the round's best
    /// and is submitted for the account owning its nonce.
    pub fn on_nonce_data(&mut self, nd: &NonceData) -> (sub: Option<Submission>)
        ensures
            final(self).plots == old(self).plots,
            final(self).round == old(self).round,
            sub == spec_submission_for(*old(self), *nd),
            spec_accepts(*old(self), *nd) ==> final(self).best_deadline == nd.deadline,
            !spec_accepts(*old(self), *nd) ==> final(self).best_deadline == old(
                self,
            ).best_deadline,
    {
        let accepted = match &self.round {
            None => false,
            Some(r) => {
                if nd.height != r.height {
                    false
                } else if nd.deadline >= self.best_deadline {
                    false
                } else {
                    let cap = match r.target_deadline.checked_mul(r.base_target) {
                        Some(c) => c,
                        None => u64::MAX,
                    };
                    nd.deadline <= cap
                }
            },
        };
        if accepted {
            self.best_deadline = nd.deadline;
            match account_for_nonce(&self.plots, nd.nonce) {
                Some(a) => Some(
                    Submission {
                        account_id: a,
                        nonce: nd.nonce,
                        height: nd.height,
                        deadline: nd.deadline,
                    },
                ),
                None => None,
            }
        } else {
            None
        }
    }
}

/// Candidates of a replaced round never become submissions: once a round
/// with another height is active, a candidate carrying the old height is
/// dropped.
pub proof fn lemma_no_stale_submission(c: Coordinator, nd: NonceData)
    requires
        c.round matches Some(r) && nd.height != r.height,
    ensures
        spec_submission_for(c, nd) is None,
{
}

/// Every submission carries the height of the round it was accepted in,
/// which is the height its candidate carried, and names a nonce owned by
/// one of the miner's plots.
pub proof fn lemma_submission_matches_round(c: Coordinator, nd: NonceData)
    requires
        spec_submission_for(c, nd) matches Some(s),
    ensures
        c.round matches Some(r) && spec_submission_for(c, nd) matches Some(s) && s.height
            == r.height && s.height == nd.height && s.nonce == nd.nonce && s.deadline
            == nd.deadline,
        exists|i: int|
            0 <= i < c.plots@.len() && owns_nonce(#[trigger] c.plots@[i], nd.nonce)
                && c.plots@[i].account_id == spec_submission_for(c, nd)->Some_0.account_id,
{
    lemma_account_from_owns(c.plots@, nd.nonce, 0);
}

/// When the first-match lookup finds an account, some plot owns the nonce
/// and lends that account.
proof fn lemma_account_from_owns(plots: Seq<PlotOwner>, nonce: u64, from: int)
    requires
        spec_account_from(plots, nonce, from) matches Some(a),
    ensures
        exists|i: int|
            from <= i < plots.len() && owns_nonce(#[trigger] plots[i], nonce) && plots[i].account_id
                == spec_account_from(plots, nonce, from)->Some_0,
    decreases plots.len() - from,
{
    if 0 <= from < plots.len() {
        if owns_nonce(plots[from], nonce) {
        } else {
            lemma_account_from_owns(plots, nonce, from + 1);
        }
    }
}

} // verus!
