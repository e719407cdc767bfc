//! Session ids and claim tokens.
//!
//! A claim token is the secret that a caller presents to read or consume a
//! session's output. It is built from the time, the session id and a nonce
//! that never repeats, so two tokens of one authority always differ.

use vstd::prelude::*;
use vstd::string::StringExecFns;
use crate::numerals::{hex16, hex_text, lemma_hex_text_len};

verus! {

/// The text of the claim token for these three numbers: each as 16
/// hexadecimal digits.
pub open spec fn claim_token_text(now_ms: u64, session_id: u64, nonce: u64) -> Seq<char> {
    hex_text(now_ms as nat, 16) + hex_text(session_id as nat, 16) + hex_text(nonce as nat, 16)
}

/// Issues session ids and claim tokens from two counters.
pub struct ClaimTokenAuthority {
    session_counter: u64,
    claim_counter: u64,
}

impl ClaimTokenAuthority {
    /// The id that the next session gets.
    pub closed spec fn upcoming_session_id(&self) -> u64 {
        self.session_counter
    }

    /// The nonce that the next claim token holds.
    pub closed spec fn upcoming_nonce(&self) -> u64 {
        self.claim_counter
    }

    /// An authority that has issued nothing: ids and nonces start at 1.
    pub fn new() -> (authority: Self)
        ensures
            authority.upcoming_session_id() == 1,
            authority.upcoming_nonce() == 1,
    {
        ClaimTokenAuthority { session_counter: 1, claim_counter: 1 }
    }

    /// An authority that goes on from the counters of an earlier one: the
    /// next session gets `next_session_id` and the next claim token holds
    /// `next_nonce`. Id 0 stands for no session, so a count from 0 goes on
    /// from 1.
    pub fn starting_at(next_session_id: u64, next_nonce: u64) -> (authority: Self)
        ensures
            authority.upcoming_session_id() == if next_session_id == 0 {
                1
            } else {
                next_session_id
            },
            authority.upcoming_nonce() == next_nonce,
    {
        let session_counter = if next_session_id == 0 {
            1
        } else {
            next_session_id
        };
        ClaimTokenAuthority { session_counter, claim_counter: next_nonce }
    }

    /// Whether another session id and another nonce can be issued.
    pub fn has_capacity(&self) -> (r: bool)
        ensures
            r == (self.upcoming_session_id() < u64::MAX && self.upcoming_nonce() < u64::MAX),
    {
        self.session_counter < u64::MAX && self.claim_counter < u64::MAX
    }

    /// Issues the next session id. Ids grow by one with each call.
    pub fn next_session_id(&mut self) -> (id: u64)
        requires
            old(self).upcoming_session_id() < u64::MAX,
        ensures
            id == old(self).upcoming_session_id(),
            final(self).upcoming_session_id() == id + 1,
            final(self).upcoming_nonce() == old(self).upcoming_nonce(),
    {
        let id = self.session_counter;
        self.session_counter = id + 1;
        id
    }

    /// Issues the claim token of `session_id` at time `now_ms`.
    pub fn next_claim_token(&mut self, session_id: u64, now_ms: u64) -> (token: String)
        requires
            old(self).upcoming_nonce() < u64::MAX,
        ensures
            token@ == claim_token_text(now_ms, session_id, old(self).upcoming_nonce()),
            final(self).upcoming_nonce() == old(self).upcoming_nonce() + 1,
            final(self).upcoming_session_id() == old(self).upcoming_session_id(),
    {
        let nonce = self.claim_counter;
        self.claim_counter = nonce + 1;
        let token = hex16(now_ms).concat(hex16(session_id).as_str()).concat(hex16(nonce).as_str());
        token
    }
}

/// Fixed-width hexadecimal text tells the numbers below `16^width` apart.
pub proof fn lemma_hex_text_injective(a: nat, b: nat, width: nat)
    requires
        hex_text(a, width) == hex_text(b, width),
        a < pow16(width),
        b < pow16(width),
    ensures
        a == b,
    decreases width,
{
    if width > 0 {
        let ta = hex_text(a / 16, (width - 1) as nat);
        let tb = hex_text(b / 16, (width - 1) as nat);
        lemma_hex_text_len(a / 16, (width - 1) as nat);
        lemma_hex_text_len(b / 16, (width - 1) as nat);
        let whole_a = ta.push(crate::numerals::digit_char(a % 16));
        let whole_b = tb.push(crate::numerals::digit_char(b % 16));
        assert(whole_a == whole_b);
        assert(whole_a[width - 1] == whole_b[width - 1]);
        assert(a % 16 == b % 16);
        assert(ta =~= whole_a.subrange(0, width - 1));
        assert(tb =~= whole_b.subrange(0, width - 1));
        lemma_hex_text_injective(a / 16, b / 16, (width - 1) as nat);
    }
}

/// 16 to the power `n`.
pub open spec fn pow16(n: nat) -> nat
    decreases n,
{
    if n == 0 {
        1
    } else {
        16 * pow16((n - 1) as nat)
    }
}

proof fn lemma_u64_below_pow16(v: u64)
    ensures
        (v as nat) < pow16(16),
{
    reveal_with_fuel(pow16, 17);
    assert(pow16(16) == 0x1_0000_0000_0000_0000);
}

/// Two claim tokens differ whenever their session ids or their nonces do,
/// whatever the clock read.
pub proof fn claim_tokens_differ(
    now_a: u64,
    session_a: u64,
    nonce_a: u64,
    now_b: u64,
    session_b: u64,
    nonce_b: u64,
)
    requires
        session_a != session_b || nonce_a != nonce_b,
    ensures
        claim_token_text(now_a, session_a, nonce_a) != claim_token_text(now_b, session_b, nonce_b),
{
    let ta = claim_token_text(now_a, session_a, nonce_a);
    let tb = claim_token_text(now_b, session_b, nonce_b);
    lemma_hex_text_len(now_a as nat, 16);
    lemma_hex_text_len(now_b as nat, 16);
    lemma_hex_text_len(session_a as nat, 16);
    lemma_hex_text_len(session_b as nat, 16);
    lemma_hex_text_len(nonce_a as nat, 16);
    lemma_hex_text_len(nonce_b as nat, 16);
    lemma_u64_below_pow16(session_a);
    lemma_u64_below_pow16(session_b);
    lemma_u64_below_pow16(nonce_a);
    lemma_u64_below_pow16(nonce_b);
    if ta == tb {
        assert(ta.subrange(16, 32) =~= hex_text(session_a as nat, 16));
        assert(tb.subrange(16, 32) =~= hex_text(session_b as nat, 16));
        assert(ta.subrange(32, 48) =~= hex_text(nonce_a as nat, 16));
        assert(tb.subrange(32, 48) =~= hex_text(nonce_b as nat, 16));
        lemma_hex_text_injective(session_a as nat, session_b as nat, 16);
        lemma_hex_text_injective(nonce_a as nat, nonce_b as nat, 16);
    }
}

} // verus!
