use bbs::keys::DeterministicPublicKey;
use bbs_signatures::errors::BbsError;
use bbs_signatures::keys::{
    bls_generate_g1_key, bls_generate_g2_key, bls_sign, bls_to_bbs_key, bls_verify,
    Bls12381ToBbsRequest, BlsBbsSignRequest, BlsBbsVerifyRequest, BlsKeyPair,
};

fn message_bytes(strs: &[&str]) -> Vec<Vec<u8>> {
    strs.iter().map(|s| s.as_bytes().to_vec()).collect()
}

#[test]
fn g2_key_generation_is_deterministic() {
    let a = bls_generate_g2_key(Some(vec![7u8; 32]));
    let b = bls_generate_g2_key(Some(vec![7u8; 32]));
    let c = bls_generate_g2_key(Some(vec![8u8; 32]));
    let pa = a.public_key.unwrap();
    let pb = b.public_key.unwrap();
    let pc = c.public_key.unwrap();
    assert_eq!(pa.len(), 96);
    assert_eq!(pa, pb);
    assert_ne!(pa, pc);
    assert_eq!(a.secret_key.unwrap(), b.secret_key.unwrap());
}

#[test]
fn g1_key_generation_is_deterministic() {
    let a = bls_generate_g1_key(Some(vec![7u8; 32]));
    let b = bls_generate_g1_key(Some(vec![7u8; 32]));
    let pa = a.public_key.unwrap();
    assert_eq!(pa.len(), 48);
    assert_eq!(pa, b.public_key.unwrap());
    assert!(a.secret_key.is_some());
}

#[test]
fn fresh_keys_differ_without_seed() {
    let a = bls_generate_g2_key(None);
    let b = bls_generate_g2_key(None);
    let pa = a.public_key.unwrap();
    let pb = b.public_key.unwrap();
    assert_eq!(pa.len(), 96);
    assert_ne!(pa, pb);
}

#[test]
fn to_bbs_key_expands_public_key() {
    let kp = bls_generate_g2_key(Some(vec![1u8; 32]));
    let r = bls_to_bbs_key(Bls12381ToBbsRequest {
        key_pair: kp,
        message_count: 3,
    })
    .unwrap();
    assert_eq!(r.message_count, 3);
    assert!(r.secret_key.is_some());
}

#[test]
fn to_bbs_key_from_secret_only() {
    let kp = bls_generate_g2_key(Some(vec![2u8; 32]));
    let r = bls_to_bbs_key(Bls12381ToBbsRequest {
        key_pair: BlsKeyPair {
            public_key: None,
            secret_key: kp.secret_key,
        },
        message_count: 2,
    })
    .unwrap();
    assert_eq!(r.message_count, 2);
    assert!(r.secret_key.is_some());
}

#[test]
fn to_bbs_key_rejects_zero_count() {
    let kp = bls_generate_g2_key(Some(vec![3u8; 32]));
    let r = bls_to_bbs_key(Bls12381ToBbsRequest {
        key_pair: kp,
        message_count: 0,
    });
    assert!(matches!(r, Err(BbsError::InvalidKey)));
}

#[test]
fn to_bbs_key_rejects_missing_keys() {
    let r = bls_to_bbs_key(Bls12381ToBbsRequest {
        key_pair: BlsKeyPair {
            public_key: None,
            secret_key: None,
        },
        message_count: 3,
    });
    assert!(matches!(r, Err(BbsError::MissingKey)));
}

#[test]
fn sign_and_verify_roundtrip() {
    let kp = bls_generate_g2_key(Some(vec![4u8; 32]));
    let pk_bytes = kp.public_key.clone().unwrap();
    let msgs = ["alice", "30", "US"];
    let sig = bls_sign(BlsBbsSignRequest {
        key_pair: kp,
        messages: message_bytes(&msgs),
    })
    .unwrap();
    let mut arr = [0u8; 96];
    arr.copy_from_slice(&pk_bytes[..96]);
    let dpk = DeterministicPublicKey::from(&arr);
    let good = bls_verify(BlsBbsVerifyRequest {
        public_key: dpk,
        signature: sig.clone(),
        messages: message_bytes(&msgs),
    });
    assert!(good.verified, "{:?}", good.error);
    assert!(good.error.is_none());
    let bad = bls_verify(BlsBbsVerifyRequest {
        public_key: dpk,
        signature: sig.clone(),
        messages: message_bytes(&["alice", "31", "US"]),
    });
    assert!(!bad.verified);
    let empty = bls_verify(BlsBbsVerifyRequest {
        public_key: dpk,
        signature: sig,
        messages: vec![],
    });
    assert!(!empty.verified);
    assert_eq!(empty.error.unwrap(), "Messages cannot be empty");
}

#[test]
fn sign_rejects_missing_secret_key() {
    let kp = bls_generate_g2_key(Some(vec![5u8; 32]));
    let r = bls_sign(BlsBbsSignRequest {
        key_pair: BlsKeyPair {
            public_key: kp.public_key,
            secret_key: None,
        },
        messages: message_bytes(&["alice"]),
    });
    assert!(matches!(r, Err(BbsError::MissingSecretKey)));
}

#[test]
fn sign_rejects_missing_public_key() {
    let kp = bls_generate_g2_key(Some(vec![6u8; 32]));
    let r = bls_sign(BlsBbsSignRequest {
        key_pair: BlsKeyPair {
            public_key: None,
            secret_key: kp.secret_key,
        },
        messages: message_bytes(&["alice"]),
    });
    assert!(matches!(r, Err(BbsError::MissingKey)));
}

#[test]
fn sign_rejects_empty_message_list() {
    let kp = bls_generate_g2_key(Some(vec![7u8; 32]));
    let r = bls_sign(BlsBbsSignRequest {
        key_pair: kp,
        messages: vec![],
    });
    assert!(matches!(r, Err(BbsError::InvalidKey)));
}

#[test]
fn to_bbs_key_rejects_invalid_key_bytes() {
    // 96 bytes that are not a serialized G2 point: reported, not a crash.
    let r = bls_to_bbs_key(Bls12381ToBbsRequest {
        key_pair: BlsKeyPair {
            public_key: Some(vec![0u8; 96]),
            secret_key: None,
        },
        message_count: 3,
    });
    assert!(matches!(r, Err(BbsError::InvalidKey)));
}

#[test]
fn sign_rejects_invalid_key_bytes() {
    let kp = bls_generate_g2_key(Some(vec![9u8; 32]));
    let r = bls_sign(BlsBbsSignRequest {
        key_pair: BlsKeyPair {
            public_key: Some(vec![0u8; 96]),
            secret_key: kp.secret_key,
        },
        messages: message_bytes(&["alice"]),
    });
    assert!(matches!(r, Err(BbsError::InvalidKey)));
}
