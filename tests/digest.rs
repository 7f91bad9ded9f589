use rotkeappchen::{rotation_bytes, Blake3, Rotkeappchen, RotkeappchenError};

fn expected_digest(salt: &str, secret: &[u8], rotation: i64) -> Vec<u8> {
    let mut data = Vec::new();
    data.extend_from_slice(salt.as_bytes());
    data.extend_from_slice(secret);
    data.extend_from_slice(&rotation.to_be_bytes());
    blake3::hash(&data).as_bytes().to_vec()
}

#[test]
fn basic_verify_digest() {
    let rot = Rotkeappchen::default(b"secret", 10).unwrap();
    let code = rot.digest("client").unwrap();
    assert!(rot.is_valid("client", |digest| digest == code).unwrap())
}

#[test]
fn different_secrets() {
    let rot1 = Rotkeappchen::default(b"secret1", 10).unwrap();
    let rot2 = Rotkeappchen::default(b"secret2", 10).unwrap();
    let code1 = rot1.digest("client").unwrap();
    let code2 = rot2.digest("client").unwrap();
    assert!(code1 != code2)
}

#[test]
fn different_salts() {
    let rot1 = Rotkeappchen::default(b"secret", 10).unwrap();
    let rot2 = Rotkeappchen::default(b"secret", 10).unwrap();
    let code1 = rot1.digest("client1").unwrap();
    let code2 = rot2.digest("client2").unwrap();
    assert!(code1 != code2)
}

#[test]
fn realistic_timing() {
    let rot = Rotkeappchen::default(b"secret", 2).unwrap();
    let start: u64 = 1_700_000_001;
    let code = rot.calculate_digest_at("client", 0, start).unwrap();
    assert!(rot.is_valid_at("client", start + 2, |digest| digest == code))
}

#[test]
fn digest_expiration() {
    let rot = Rotkeappchen::default(b"secret", 1).unwrap();
    let start: u64 = 1_700_000_000;
    let code = rot.calculate_digest_at("client", 0, start).unwrap();
    assert!(!rot.is_valid_at("client", start + 2, |digest| digest == code))
}

#[test]
fn zero_period_is_rejected() {
    assert_eq!(
        Rotkeappchen::default(b"secret", 0).unwrap_err(),
        RotkeappchenError::ZeroRotationPeriod
    );
    assert_eq!(
        Rotkeappchen::new(b"secret", 0, 3, Blake3).unwrap_err(),
        RotkeappchenError::ZeroRotationPeriod
    );
}

#[test]
fn construction_keeps_configuration() {
    let rot = Rotkeappchen::new(b"secret", 30, 4, Blake3).unwrap();
    assert_eq!(rot.shared_secret(), b"secret");
    assert_eq!(rot.persist_rotation_seconds(), 30);
    assert_eq!(rot.lookback_window_size(), 4);
    let default = Rotkeappchen::default(b"key", 5).unwrap();
    assert_eq!(default.lookback_window_size(), 1);
}

#[test]
fn rotation_bytes_are_big_endian() {
    assert_eq!(rotation_bytes(1), vec![0, 0, 0, 0, 0, 0, 0, 1]);
    assert_eq!(rotation_bytes(-1), vec![255; 8]);
    assert_eq!(
        rotation_bytes(0x0102_0304_0506_0708),
        vec![1, 2, 3, 4, 5, 6, 7, 8]
    );
    assert_eq!(rotation_bytes(i64::MIN), vec![128, 0, 0, 0, 0, 0, 0, 0]);
}

#[test]
fn digest_hashes_salt_secret_and_rotation() {
    let rot = Rotkeappchen::default(b"secret", 10).unwrap();
    let code = rot.calculate_digest_at("client", 0, 1_234).unwrap();
    assert_eq!(code.len(), 32);
    assert_eq!(code, expected_digest("client", b"secret", 123));
    let past = rot.calculate_digest_at("client", -3, 1_234).unwrap();
    assert_eq!(past, expected_digest("client", b"secret", 120));
    let before_epoch = rot.calculate_digest_at("client", -200, 1_234).unwrap();
    assert_eq!(before_epoch, expected_digest("client", b"secret", -77));
}

#[test]
fn same_rotation_gives_same_digest() {
    let rot = Rotkeappchen::default(b"secret", 10).unwrap();
    let a = rot.calculate_digest_at("client", 0, 1_230).unwrap();
    let b = rot.calculate_digest_at("client", 0, 1_239).unwrap();
    let c = rot.calculate_digest_at("client", 0, 1_240).unwrap();
    assert_eq!(a, b);
    assert_ne!(a, c);
}

#[test]
fn secrets_and_salts_change_the_digest_at_one_instant() {
    let rot1 = Rotkeappchen::default(b"secret1", 10).unwrap();
    let rot2 = Rotkeappchen::default(b"secret2", 10).unwrap();
    assert_ne!(
        rot1.calculate_digest_at("client", 0, 500).unwrap(),
        rot2.calculate_digest_at("client", 0, 500).unwrap()
    );
    assert_ne!(
        rot1.calculate_digest_at("a", 0, 500).unwrap(),
        rot1.calculate_digest_at("b", 0, 500).unwrap()
    );
}

#[test]
fn round_trip_at_one_instant() {
    let rot = Rotkeappchen::new(b"secret", 7, 0, Blake3).unwrap();
    let code = rot.calculate_digest_at("client", 0, 99).unwrap();
    assert!(rot.is_valid_at("client", 99, |digest| digest == code));
}

#[test]
fn window_accepts_previous_rotation() {
    let rot = Rotkeappchen::new(b"secret", 1, 1, Blake3).unwrap();
    let code = rot.calculate_digest_at("client", 0, 1_000).unwrap();
    assert!(rot.is_valid_at("client", 1_001, |digest| digest == code));
}

#[test]
fn window_rejects_older_rotations() {
    let rot = Rotkeappchen::new(b"secret", 1, 1, Blake3).unwrap();
    let code = rot.calculate_digest_at("client", 0, 1_000).unwrap();
    assert!(!rot.is_valid_at("client", 1_002, |digest| digest == code));
    let strict = Rotkeappchen::new(b"secret", 1, 0, Blake3).unwrap();
    let code = strict.calculate_digest_at("client", 0, 1_000).unwrap();
    assert!(!strict.is_valid_at("client", 1_001, |digest| digest == code));
    assert!(!strict.is_valid_at("client", 1_002, |digest| digest == code));
}

#[test]
fn future_rotation_is_never_accepted() {
    let rot = Rotkeappchen::new(b"secret", 1, 5, Blake3).unwrap();
    let ahead = rot.calculate_digest_at("client", 1, 1_000).unwrap();
    assert!(!rot.is_valid_at("client", 1_000, |digest| digest == ahead));
}

#[test]
fn window_probes_each_rotation_once() {
    let rot = Rotkeappchen::new(b"secret", 1, 3, Blake3).unwrap();
    let calls = std::cell::Cell::new(0u32);
    let ok = rot.is_valid_at("client", 1_000, |_| {
        calls.set(calls.get() + 1);
        false
    });
    assert!(!ok);
    assert_eq!(calls.get(), 4);
}

#[test]
fn rotation_out_of_range() {
    let rot = Rotkeappchen::default(b"secret", 1).unwrap();
    assert_eq!(
        rot.calculate_digest_at("client", 0, u64::MAX).unwrap_err(),
        RotkeappchenError::RotationOutOfRange
    );
    let back = rot
        .calculate_digest_at("client", isize::MIN, u64::MAX)
        .unwrap();
    assert_eq!(back, expected_digest("client", b"secret", i64::MAX));
    assert!(!rot.is_valid_at("client", u64::MAX, |_| true));
    let wide = Rotkeappchen::new(b"secret", 1, usize::MAX, Blake3).unwrap();
    assert!(wide.is_valid_at("client", u64::MAX, |digest| digest == back));
}
