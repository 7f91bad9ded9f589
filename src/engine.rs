//! The digest engine: derivation and verification of rotating digests.
use vstd::prelude::*;
use vstd::string::StringSliceAdditionalSpecFns;
use crate::clock::unix_time_now;
use crate::encoding::{fits_i64, message, rotation_bytes};
use crate::hash::{Blake3, HashFunction};

verus! {

/// Why an engine could not be built or a digest could not be derived.
#[derive(Clone, Copy, Debug, PartialEq, Eq, Structural)]
pub enum RotkeappchenError {
    /// The rotation period is zero seconds.
    ZeroRotationPeriod,
    /// The system clock reads a time before the Unix epoch.
    ClockBeforeEpoch,
    /// The requested rotation index does not fit in an `i64`.
    RotationOutOfRange,
}

/// Whether `check` may answer `true` on a vector holding `digest`.
pub open spec fn accepts<F: Fn(Vec<u8>) -> bool>(check: F, digest: Seq<u8>) -> bool {
    exists|d: Vec<u8>| d@ == digest && #[trigger] check.ensures((d,), true)
}

/// Whether `check` may answer `false` on a vector holding `digest`.
pub open spec fn rejects<F: Fn(Vec<u8>) -> bool>(check: F, digest: Seq<u8>) -> bool {
    exists|d: Vec<u8>| d@ == digest && #[trigger] check.ensures((d,), false)
}

/// A digest engine: a shared secret, a rotation period in seconds, the number
/// of past rotations that verification accepts besides the current one, and
/// the hash function. The configuration is fixed once the engine is built.
///
/// The engine keeps its own copy of the secret.
#[derive(Debug)]
pub struct Rotkeappchen<H> {
    shared_secret: Vec<u8>,
    persist_rotation_seconds: usize,
    lookback_window_size: usize,
    hashing_function: H,
}

impl Rotkeappchen<Blake3> {
    /// An engine over BLAKE3 that also accepts the rotation before the
    /// current one; an error where the period is zero.
    pub fn default(shared_secret: &[u8], persist_rotation_seconds: usize) -> (r: Result<
        Self,
        RotkeappchenError,
    >)
        ensures
            match r {
                Ok(e) => {
                    &&& persist_rotation_seconds > 0
                    &&& e.secret() == shared_secret@
                    &&& e.period() == persist_rotation_seconds
                    &&& e.window() == 1
                    &&& e.hasher() == Blake3
                },
                Err(err) => persist_rotation_seconds == 0 && err == RotkeappchenError::ZeroRotationPeriod,
            },
    {
        Self::new(shared_secret, persist_rotation_seconds, 1, Blake3)
    }
}

impl<H> Rotkeappchen<H> {
    #[verifier::type_invariant]
    spec fn period_positive(&self) -> bool {
        self.persist_rotation_seconds > 0
    }

    /// The shared secret.
    pub closed spec fn secret(&self) -> Seq<u8> {
        self.shared_secret@
    }

    /// The rotation period, in seconds.
    pub closed spec fn period(&self) -> nat {
        self.persist_rotation_seconds as nat
    }

    /// How many rotations before the current one verification accepts.
    pub closed spec fn window(&self) -> nat {
        self.lookback_window_size as nat
    }

    /// The hash function.
    pub closed spec fn hasher(&self) -> H {
        self.hashing_function
    }

    /// The shared secret.
    pub fn shared_secret(&self) -> (r: &[u8])
        ensures
            r@ == self.secret(),
    {
        self.shared_secret.as_slice()
    }

    /// The rotation period, in seconds.
    pub fn persist_rotation_seconds(&self) -> (r: usize)
        ensures
            r == self.period(),
            r > 0,
    {
        proof {
            use_type_invariant(self);
        }
        self.persist_rotation_seconds
    }

    /// How many rotations before the current one verification accepts.
    pub fn lookback_window_size(&self) -> (r: usize)
        ensures
            r == self.window(),
    {
        self.lookback_window_size
    }

    /// The hash function.
    pub fn hashing_function(&self) -> (r: &H)
        ensures
            *r == self.hasher(),
    {
        &self.hashing_function
    }
}

impl<H: HashFunction> Rotkeappchen<H> {
    /// The digest of `salt` in rotation `rotation`.
    pub open spec fn digest_for(&self, salt: Seq<u8>, rotation: i64) -> Seq<u8> {
        self.hasher().spec_hash(message(salt, self.secret(), rotation))
    }

    /// The rotation that holds the instant `unix_time`, moved by `offset`.
    pub open spec fn target(&self, unix_time: u64, offset: int) -> int {
        unix_time as int / self.period() as int + offset
    }

    /// The digest of `salt` for `offset` rotations from the one that holds
    /// `unix_time`; `None` where that rotation is not an `i64`.
    pub open spec fn digest_at(&self, salt: Seq<u8>, unix_time: u64, offset: int) -> Option<
        Seq<u8>,
    > {
        let t = self.target(unix_time, offset);
        if fits_i64(t) {
            Some(self.digest_for(salt, t as i64))
        } else {
            None
        }
    }

    /// The bytes hashed for `offset` rotations from the one that holds
    /// `unix_time`, where that rotation is an `i64`.
    pub open spec fn hash_input(&self, salt: Seq<u8>, unix_time: u64, offset: int) -> Seq<u8> {
        message(salt, self.secret(), self.target(unix_time, offset) as i64)
    }

    /// The bytes that verification at `unix_time` hashes `k` rotations back.
    pub open spec fn probed_input(&self, salt: Seq<u8>, unix_time: u64, k: int) -> Seq<u8> {
        self.hash_input(salt, unix_time, -k)
    }

    /// The digest that verification at `unix_time` probes `k` rotations back.
    pub open spec fn probe(&self, salt: Seq<u8>, unix_time: u64, k: int) -> Option<Seq<u8>> {
        self.digest_at(salt, unix_time, -k)
    }

    /// What verification at `unix_time` may answer: `true` only where `check`
    /// may accept a digest of the window, and `false` only where it may reject
    /// every digest of the window.
    #[verifier::opaque]
    pub open spec fn valid_outcome<F: Fn(Vec<u8>) -> bool>(
        &self,
        salt: Seq<u8>,
        unix_time: u64,
        check: F,
        r: bool,
    ) -> bool {
        &&& r ==> exists|k: int|
            0 <= k <= self.window() && match #[trigger] self.probe(salt, unix_time, k) {
                Some(d) => accepts(check, d),
                None => false,
            }
        &&& !r ==> forall|k: int|
            0 <= k <= self.window() && #[trigger] self.probe(salt, unix_time, k) is Some ==> rejects(
                check,
                self.probe(salt, unix_time, k)->Some_0,
            )
    }

    /// An engine over `hashing_function`; an error where the period is zero.
    pub fn new(
        shared_secret: &[u8],
        persist_rotation_seconds: usize,
        lookback_window_size: usize,
        hashing_function: H,
    ) -> (r: Result<Self, RotkeappchenError>)
        ensures
            match r {
                Ok(e) => {
                    &&& persist_rotation_seconds > 0
                    &&& e.secret() == shared_secret@
                    &&& e.period() == persist_rotation_seconds
                    &&& e.window() == lookback_window_size
                    &&& e.hasher() == hashing_function
                },
                Err(err) => persist_rotation_seconds == 0 && err == RotkeappchenError::ZeroRotationPeriod,
            },
    {
        if persist_rotation_seconds == 0 {
            return Err(RotkeappchenError::ZeroRotationPeriod);
        }
        Ok(
            Rotkeappchen {
                shared_secret: vstd::slice::slice_to_vec(shared_secret),
                persist_rotation_seconds,
                lookback_window_size,
                hashing_function,
            },
        )
    }

    /// The hash of salt, secret and `rotation`.
    fn digest_of_rotation(&self, salt: &str, rotation: i64) -> (r: Vec<u8>)
        ensures
            r@ == self.digest_for(salt.spec_bytes(), rotation),
    {
        let mut data = vstd::slice::slice_to_vec(salt.as_bytes());
        let mut secret = vstd::slice::slice_to_vec(self.shared_secret.as_slice());
        let mut rotation_data = rotation_bytes(rotation);
        data.append(&mut secret);
        data.append(&mut rotation_data);
        self.hashing_function.hash(data.as_slice())
    }

    /// The digest of `salt` for `offset` rotations from the one that holds
    /// the instant `unix_time` (seconds since the Unix epoch).
    pub fn calculate_digest_at(&self, salt: &str, offset: isize, unix_time: u64) -> (r: Result<
        Vec<u8>,
        RotkeappchenError,
    >)
        ensures
            match r {
                Ok(d) => self.digest_at(salt.spec_bytes(), unix_time, offset as int) == Some(d@),
                Err(err) => self.digest_at(salt.spec_bytes(), unix_time, offset as int) is None
                    && err == RotkeappchenError::RotationOutOfRange,
            },
    {
        proof {
            use_type_invariant(self);
        }
        let current: u64 = unix_time / (self.persist_rotation_seconds as u64);
        let target: i128 = current as i128 + offset as i128;
        if target < i64::MIN as i128 || target > i64::MAX as i128 {
            return Err(RotkeappchenError::RotationOutOfRange);
        }
        Ok(self.digest_of_rotation(salt, target as i64))
    }

    /// Checks the digests of `salt` for the rotation that holds the instant
    /// `unix_time` and for the window of rotations before it, newest first,
    /// with `custom_check`; `true` as soon as one passes. Rotations that are
    /// not an `i64` have no digest and are passed over.
    pub fn is_valid_at<F: Fn(Vec<u8>) -> bool>(&self, salt: &str, unix_time: u64, custom_check: F) -> (r:
        bool)
        requires
            forall|d: Vec<u8>| custom_check.requires((d,)),
        ensures
            self.valid_outcome(salt.spec_bytes(), unix_time, custom_check, r),
    {
        proof {
            use_type_invariant(self);
        }
        let ghost s = salt.spec_bytes();
        let current: u64 = unix_time / (self.persist_rotation_seconds as u64);
        let window = self.lookback_window_size;
        let mut k: usize = 0;
        if current > i64::MAX as u64 {
            let skip: u64 = current - i64::MAX as u64;
            if skip > window as u64 {
                assert forall|j: int|
                    0 <= j <= self.window() && #[trigger] self.probe(s, unix_time, j) is Some implies rejects(
                    custom_check,
                    self.probe(s, unix_time, j)->Some_0,
                ) by {}
                proof {
                    reveal(Rotkeappchen::valid_outcome);
                }
                return false;
            }
            k = skip as usize;
        }
        loop
            invariant
                k <= window,
                window == self.window(),
                current == unix_time as int / self.period() as int,
                self.period() > 0,
                s == salt.spec_bytes(),
                forall|d: Vec<u8>| custom_check.requires((d,)),
                forall|j: int|
                    0 <= j < k && #[trigger] self.probe(s, unix_time, j) is Some ==> rejects(
                        custom_check,
                        self.probe(s, unix_time, j)->Some_0,
                    ),
                current as int - k <= i64::MAX,
            decreases window - k,
        {
            let target: i128 = current as i128 - k as i128;
            if target < i64::MIN as i128 {
                assert forall|j: int|
                    0 <= j <= self.window() && #[trigger] self.probe(s, unix_time, j) is Some implies rejects(
                    custom_check,
                    self.probe(s, unix_time, j)->Some_0,
                ) by {
                    assert(j < k);
                }
                proof {
                    reveal(Rotkeappchen::valid_outcome);
                }
                return false;
            }
            let d = self.digest_of_rotation(salt, target as i64);
            let ghost dv = d@;
            assert(self.probe(s, unix_time, k as int) == Some(dv));
            if custom_check(d) {
                proof {
                    reveal(Rotkeappchen::valid_outcome);
                }
                return true;
            }
            if k == window {
                proof {
                    reveal(Rotkeappchen::valid_outcome);
                }
                return false;
            }
            k = k + 1;
        }
    }

    /// Reads the system clock as whole seconds since the Unix epoch.
    fn now_unix_seconds() -> (r: Result<u64, RotkeappchenError>)
        ensures
            r is Err ==> r == Err::<u64, RotkeappchenError>(RotkeappchenError::ClockBeforeEpoch),
    {
        match unix_time_now() {
            Some(t) => Ok(t),
            None => Err(RotkeappchenError::ClockBeforeEpoch),
        }
    }

    /// The digest of `salt` for `offset` rotations from the current one, as
    /// the system clock gives it.
    pub fn calculate_digest(&self, salt: &str, offset: isize) -> (r: Result<
        Vec<u8>,
        RotkeappchenError,
    >)
        ensures
            match r {
                Ok(d) => exists|t: u64|
                    #[trigger] self.digest_at(salt.spec_bytes(), t, offset as int) == Some(d@),
                Err(err) => err == RotkeappchenError::ClockBeforeEpoch || (err
                    == RotkeappchenError::RotationOutOfRange && exists|t: u64|
                    #[trigger] self.digest_at(salt.spec_bytes(), t, offset as int) is None),
            },
    {
        let now = Self::now_unix_seconds()?;
        self.calculate_digest_at(salt, offset, now)
    }

    /// The digest of `salt` for the current rotation.
    pub fn digest(&self, salt: &str) -> (r: Result<Vec<u8>, RotkeappchenError>)
        ensures
            match r {
                Ok(d) => exists|t: u64| #[trigger] self.digest_at(salt.spec_bytes(), t, 0) == Some(d@),
                Err(err) => err == RotkeappchenError::ClockBeforeEpoch || (err
                    == RotkeappchenError::RotationOutOfRange && exists|t: u64|
                    #[trigger] self.digest_at(salt.spec_bytes(), t, 0) is None),
            },
    {
        self.calculate_digest(salt, 0)
    }

    /// Checks `custom_check` against the digests of `salt` for the current
    /// rotation and the window before it, as the system clock gives it.
    pub fn is_valid<F: Fn(Vec<u8>) -> bool>(&self, salt: &str, custom_check: F) -> (r: Result<
        bool,
        RotkeappchenError,
    >)
        requires
            forall|d: Vec<u8>| custom_check.requires((d,)),
        ensures
            r is Ok ==> exists|t: u64|
                #[trigger] self.valid_outcome(salt.spec_bytes(), t, custom_check, r->Ok_0),
            r is Err ==> r->Err_0 == RotkeappchenError::ClockBeforeEpoch,
    {
        match Self::now_unix_seconds() {
            Ok(now) => {
                let b = self.is_valid_at(salt, now, custom_check);
                let r: Result<bool, RotkeappchenError> = Ok(b);
                assert(self.valid_outcome(salt.spec_bytes(), now, custom_check, r->Ok_0));
                assert(exists|t: u64| #[trigger] self.valid_outcome(salt.spec_bytes(), t, custom_check, r->Ok_0));
                r
            },
            Err(err) => Err(err),
        }
    }
}

} // verus!
