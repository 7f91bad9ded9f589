//! Laws that relate the digests of several calls, engines or instants.
use vstd::prelude::*;
use crate::encoding::{
    fits_i64,
    lemma_message_rotation_injective,
    lemma_message_salt_injective,
    lemma_message_secret_injective,
};
use crate::engine::{rejects, Rotkeappchen};
use crate::hash::HashFunction;

verus! {

/// Whether `check` answers `true` on a digest exactly when it equals `code`.
pub open spec fn matches_exactly<F: Fn(Vec<u8>) -> bool>(check: F, code: Seq<u8>) -> bool {
    forall|d: Vec<u8>, b: bool| #[trigger] check.ensures((d,), b) ==> b == (d@ == code)
}

/// Two engines with the same secret, period and hash function give one salt
/// the same digest at any two instants of one rotation.
pub proof fn lemma_determinism<H: HashFunction>(
    e1: Rotkeappchen<H>,
    e2: Rotkeappchen<H>,
    salt: Seq<u8>,
    t1: u64,
    t2: u64,
    offset: int,
)
    requires
        e1.period() > 0,
        e1.secret() == e2.secret(),
        e1.period() == e2.period(),
        e1.hasher() == e2.hasher(),
        t1 as int / e1.period() as int == t2 as int / e2.period() as int,
    ensures
        e1.digest_at(salt, t1, offset) == e2.digest_at(salt, t2, offset),
{
}

/// Two engines that differ in their secret hash different bytes for one salt
/// at one instant: their digests differ unless the hash function collides.
pub proof fn lemma_secret_sensitivity<H: HashFunction>(
    e1: Rotkeappchen<H>,
    e2: Rotkeappchen<H>,
    salt: Seq<u8>,
    t: u64,
)
    requires
        e1.period() > 0,
        e1.period() == e2.period(),
        e1.secret() != e2.secret(),
        fits_i64(e1.target(t, 0)),
    ensures
        e1.hash_input(salt, t, 0) != e2.hash_input(salt, t, 0),
        e1.digest_at(salt, t, 0) == Some(e1.hasher().spec_hash(e1.hash_input(salt, t, 0))),
        e2.digest_at(salt, t, 0) == Some(e2.hasher().spec_hash(e2.hash_input(salt, t, 0))),
{
    let r = e1.target(t, 0) as i64;
    if e1.hash_input(salt, t, 0) == e2.hash_input(salt, t, 0) {
        lemma_message_secret_injective(salt, e1.secret(), e2.secret(), r);
    }
}

/// One engine hashes different bytes for two salts whose bytes differ, at one
/// instant: their digests differ unless the hash function collides.
pub proof fn lemma_salt_sensitivity<H: HashFunction>(
    e: Rotkeappchen<H>,
    a: Seq<u8>,
    b: Seq<u8>,
    t: u64,
)
    requires
        e.period() > 0,
        a != b,
        fits_i64(e.target(t, 0)),
    ensures
        e.hash_input(a, t, 0) != e.hash_input(b, t, 0),
        e.digest_at(a, t, 0) == Some(e.hasher().spec_hash(e.hash_input(a, t, 0))),
        e.digest_at(b, t, 0) == Some(e.hasher().spec_hash(e.hash_input(b, t, 0))),
{
    let r = e.target(t, 0) as i64;
    if e.hash_input(a, t, 0) == e.hash_input(b, t, 0) {
        lemma_message_salt_injective(a, b, e.secret(), r);
    }
}

/// A code made at `t1` passes verification at `t2` with a check that accepts
/// exactly that code, when the rotation of `t2` is the one of `t1` or one of
/// the window after it.
pub proof fn lemma_window_acceptance<H: HashFunction, F: Fn(Vec<u8>) -> bool>(
    e: Rotkeappchen<H>,
    salt: Seq<u8>,
    t1: u64,
    t2: u64,
    check: F,
)
    requires
        e.period() > 0,
        e.digest_at(salt, t1, 0) is Some,
        e.target(t1, 0) <= e.target(t2, 0) <= e.target(t1, 0) + e.window(),
        matches_exactly(check, e.digest_at(salt, t1, 0)->Some_0),
    ensures
        forall|r: bool| #[trigger] e.valid_outcome(salt, t2, check, r) ==> r,
{
    reveal(Rotkeappchen::valid_outcome);
    let code = e.digest_at(salt, t1, 0)->Some_0;
    let k = e.target(t2, 0) - e.target(t1, 0);
    assert(e.probe(salt, t2, k) == Some(code));
    assert forall|r: bool| #[trigger] e.valid_outcome(salt, t2, check, r) implies r by {
        if !r {
            assert(rejects(check, code));
            let d = choose|d: Vec<u8>| d@ == code && #[trigger] check.ensures((d,), false);
            assert(check.ensures((d,), false));
        }
    }
}

/// A code made at one instant passes verification at that instant with a
/// check that accepts exactly that code.
pub proof fn lemma_round_trip<H: HashFunction, F: Fn(Vec<u8>) -> bool>(
    e: Rotkeappchen<H>,
    salt: Seq<u8>,
    t: u64,
    check: F,
)
    requires
        e.period() > 0,
        e.digest_at(salt, t, 0) is Some,
        matches_exactly(check, e.digest_at(salt, t, 0)->Some_0),
    ensures
        forall|r: bool| #[trigger] e.valid_outcome(salt, t, check, r) ==> r,
{
    lemma_window_acceptance(e, salt, t, t, check);
}

/// Verification at `t2` never hashes the bytes of a code made at `t1` when
/// the rotation of `t2` lies more than the window after the one of `t1`: such
/// a code passes only where the hash function collides.
pub proof fn lemma_window_rejection<H: HashFunction>(
    e: Rotkeappchen<H>,
    salt: Seq<u8>,
    t1: u64,
    t2: u64,
)
    requires
        e.period() > 0,
        fits_i64(e.target(t1, 0)),
        e.target(t2, 0) - e.target(t1, 0) > e.window(),
    ensures
        forall|k: int|
            0 <= k <= e.window() && fits_i64(e.target(t2, -k)) ==> #[trigger] e.probed_input(salt, t2, k)
                != e.hash_input(salt, t1, 0),
{
    assert forall|k: int|
        0 <= k <= e.window() && fits_i64(e.target(t2, -k)) implies #[trigger] e.probed_input(salt, t2, k)
        != e.hash_input(salt, t1, 0) by {
        if e.probed_input(salt, t2, k) == e.hash_input(salt, t1, 0) {
            lemma_message_rotation_injective(
                salt,
                e.secret(),
                e.target(t2, -k) as i64,
                e.target(t1, 0) as i64,
            );
        }
    }
}

/// Verification never hashes the bytes of a code for a rotation after the
/// current one: such a code passes only where the hash function collides.
pub proof fn lemma_no_future_acceptance<H: HashFunction>(
    e: Rotkeappchen<H>,
    salt: Seq<u8>,
    t: u64,
    offset: int,
)
    requires
        e.period() > 0,
        offset > 0,
        fits_i64(e.target(t, offset)),
    ensures
        forall|k: int|
            0 <= k <= e.window() && fits_i64(e.target(t, -k)) ==> #[trigger] e.probed_input(salt, t, k)
                != e.hash_input(salt, t, offset),
{
    assert forall|k: int|
        0 <= k <= e.window() && fits_i64(e.target(t, -k)) implies #[trigger] e.probed_input(salt, t, k)
        != e.hash_input(salt, t, offset) by {
        if e.probed_input(salt, t, k) == e.hash_input(salt, t, offset) {
            lemma_message_rotation_injective(
                salt,
                e.secret(),
                e.target(t, -k) as i64,
                e.target(t, offset) as i64,
            );
        }
    }
}

} // verus!
