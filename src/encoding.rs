//! The bytes that the hash function is applied to.
use vstd::prelude::*;

verus! {

/// The 8 bytes of `v` in big-endian order, as two's complement.
pub open spec fn be_bytes(v: i64) -> Seq<u8> {
    let u = #[verifier::truncate] (v as u64);
    seq![
        (u >> 56u64) as u8,
        (u >> 48u64) as u8,
        (u >> 40u64) as u8,
        (u >> 32u64) as u8,
        (u >> 24u64) as u8,
        (u >> 16u64) as u8,
        (u >> 8u64) as u8,
        u as u8,
    ]
}

/// The bytes handed to the hash function: salt, secret and rotation index,
/// concatenated without separators.
pub open spec fn message(salt: Seq<u8>, secret: Seq<u8>, rotation: i64) -> Seq<u8> {
    salt + secret + be_bytes(rotation)
}

/// Encodes `v` as 8 big-endian bytes.
pub fn rotation_bytes(v: i64) -> (r: Vec<u8>)
    ensures
        r@ == be_bytes(v),
{
    let u = v as u64;
    let r = vec![
        (u >> 56u64) as u8,
        (u >> 48u64) as u8,
        (u >> 40u64) as u8,
        (u >> 32u64) as u8,
        (u >> 24u64) as u8,
        (u >> 16u64) as u8,
        (u >> 8u64) as u8,
        u as u8,
    ];
    assert(r@ =~= be_bytes(v));
    r
}


/// Whether `x` is a value of `i64`.
pub open spec fn fits_i64(x: int) -> bool {
    i64::MIN <= x <= i64::MAX
}


/// Distinct rotation indices have distinct encodings.
pub proof fn lemma_be_bytes_injective(a: i64, b: i64)
    requires
        be_bytes(a) == be_bytes(b),
    ensures
        a == b,
{
    let x = #[verifier::truncate] (a as u64);
    let y = #[verifier::truncate] (b as u64);
    assert(be_bytes(a)[0] == be_bytes(b)[0]);
    assert(be_bytes(a)[1] == be_bytes(b)[1]);
    assert(be_bytes(a)[2] == be_bytes(b)[2]);
    assert(be_bytes(a)[3] == be_bytes(b)[3]);
    assert(be_bytes(a)[4] == be_bytes(b)[4]);
    assert(be_bytes(a)[5] == be_bytes(b)[5]);
    assert(be_bytes(a)[6] == be_bytes(b)[6]);
    assert(be_bytes(a)[7] == be_bytes(b)[7]);
    assert(x == y) by (bit_vector)
        requires
            (x >> 56u64) as u8 == (y >> 56u64) as u8,
            (x >> 48u64) as u8 == (y >> 48u64) as u8,
            (x >> 40u64) as u8 == (y >> 40u64) as u8,
            (x >> 32u64) as u8 == (y >> 32u64) as u8,
            (x >> 24u64) as u8 == (y >> 24u64) as u8,
            (x >> 16u64) as u8 == (y >> 16u64) as u8,
            (x >> 8u64) as u8 == (y >> 8u64) as u8,
            x as u8 == y as u8,
    ;
    assert(a == b) by (bit_vector)
        requires
            #[verifier::truncate] (a as u64) == #[verifier::truncate] (b as u64),
    ;
}

/// A message determines its rotation index, given the salt and the secret.
pub proof fn lemma_message_rotation_injective(salt: Seq<u8>, secret: Seq<u8>, a: i64, b: i64)
    requires
        message(salt, secret, a) == message(salt, secret, b),
    ensures
        a == b,
{
    let n: int = (salt.len() + secret.len()) as int;
    assert(be_bytes(a) =~= message(salt, secret, a).subrange(n, n + 8));
    assert(be_bytes(b) =~= message(salt, secret, b).subrange(n, n + 8));
    lemma_be_bytes_injective(a, b);
}

/// A message determines its secret, given the salt and the rotation index.
pub proof fn lemma_message_secret_injective(salt: Seq<u8>, s1: Seq<u8>, s2: Seq<u8>, rotation: i64)
    requires
        message(salt, s1, rotation) == message(salt, s2, rotation),
    ensures
        s1 == s2,
{
    let m = message(salt, s1, rotation);
    assert(m.len() == salt.len() + s1.len() + 8);
    assert(s1 =~= m.subrange(salt.len() as int, (salt.len() + s1.len()) as int));
    assert(s2 =~= message(salt, s2, rotation).subrange(salt.len() as int, (salt.len() + s2.len()) as int));
}

/// A message determines its salt, given the secret and the rotation index.
pub proof fn lemma_message_salt_injective(a: Seq<u8>, b: Seq<u8>, secret: Seq<u8>, rotation: i64)
    requires
        message(a, secret, rotation) == message(b, secret, rotation),
    ensures
        a == b,
{
    let m = message(a, secret, rotation);
    assert(m.len() == a.len() + secret.len() + 8);
    assert(a =~= m.subrange(0, a.len() as int));
    assert(b =~= message(b, secret, rotation).subrange(0, b.len() as int));
}

} // verus!
