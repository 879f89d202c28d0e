use bbs::keys::DeterministicPublicKey;
use bbs::pok_sig::PoKOfSignatureProof;
use bbs::signature::Signature;
use bbs_signatures::errors::BbsError;
use bbs_signatures::keys::{bls_generate_g2_key, bls_sign, BlsBbsSignRequest, BlsKeyPair};
use bbs_signatures::proving::{
    bls_create_proof, bls_create_proof_multi, BlsCreateProofMultiRequest, BlsCreateProofRequest,
    CredentialProof,
};
use bbs_signatures::verifying::{
    bls_verify_proof, bls_verify_proof_multi, BlsVerifyProofContext, BlsVerifyProofMultiContext,
};

fn attr_bytes(strs: &[&str]) -> Vec<Vec<u8>> {
    strs.iter().map(|s| s.as_bytes().to_vec()).collect()
}

fn issue(seed: u8, attrs: &[&str]) -> (Signature, DeterministicPublicKey) {
    let kp = bls_generate_g2_key(Some(vec![seed; 32]));
    let pk_bytes = kp.public_key.clone().unwrap();
    let sig = bls_sign(BlsBbsSignRequest {
        key_pair: kp,
        messages: attr_bytes(attrs),
    })
    .unwrap();
    let mut arr = [0u8; 96];
    arr.copy_from_slice(&pk_bytes[..96]);
    (sig, DeterministicPublicKey::from(&arr))
}

#[test]
fn proof_roundtrip_reveal_subset() {
    let attrs = ["alice", "30", "US"];
    let (sig, dpk) = issue(1, &attrs);
    let bundle = bls_create_proof(BlsCreateProofRequest {
        signature: sig,
        public_key: dpk,
        messages: attr_bytes(&attrs),
        revealed: vec![0, 2],
        nonce: vec![],
    })
    .unwrap();
    assert_eq!(bundle.message_count, 3);
    assert_eq!(bundle.revealed, vec![0, 2]);
    let res = bls_verify_proof(BlsVerifyProofContext {
        proof: bundle,
        public_key: dpk,
        messages: attr_bytes(&["alice", "US"]),
        nonce: vec![],
    });
    assert!(res.verified, "{:?}", res.error);
    assert!(res.error.is_none());
}

#[test]
fn proof_rejects_wrong_revealed_value() {
    let attrs = ["alice", "30", "US"];
    let (sig, dpk) = issue(2, &attrs);
    let bundle = bls_create_proof(BlsCreateProofRequest {
        signature: sig,
        public_key: dpk,
        messages: attr_bytes(&attrs),
        revealed: vec![0, 2],
        nonce: vec![],
    })
    .unwrap();
    let res = bls_verify_proof(BlsVerifyProofContext {
        proof: bundle,
        public_key: dpk,
        messages: attr_bytes(&["bob", "US"]),
        nonce: vec![],
    });
    assert!(!res.verified);
}

#[test]
fn proof_rejects_tampered_byte() {
    let attrs = ["alice", "30", "US"];
    let (sig, dpk) = issue(3, &attrs);
    let bundle = bls_create_proof(BlsCreateProofRequest {
        signature: sig,
        public_key: dpk,
        messages: attr_bytes(&attrs),
        revealed: vec![0, 2],
        nonce: vec![],
    })
    .unwrap();
    let mut values = attr_bytes(&["alice", "US"]);
    values[0][0] ^= 1;
    let res = bls_verify_proof(BlsVerifyProofContext {
        proof: bundle,
        public_key: dpk,
        messages: values,
        nonce: vec![],
    });
    assert!(!res.verified);
}

#[test]
fn proof_bound_to_nonce() {
    let attrs = ["alice", "30"];
    let (sig, dpk) = issue(4, &attrs);
    let bundle = bls_create_proof(BlsCreateProofRequest {
        signature: sig,
        public_key: dpk,
        messages: attr_bytes(&attrs),
        revealed: vec![0],
        nonce: vec![1, 2, 3],
    })
    .unwrap();
    let with_same = bls_verify_proof(BlsVerifyProofContext {
        proof: bundle.clone(),
        public_key: dpk,
        messages: attr_bytes(&["alice"]),
        nonce: vec![1, 2, 3],
    });
    assert!(with_same.verified, "{:?}", with_same.error);
    let with_other = bls_verify_proof(BlsVerifyProofContext {
        proof: bundle.clone(),
        public_key: dpk,
        messages: attr_bytes(&["alice"]),
        nonce: vec![4, 5, 6],
    });
    assert!(!with_other.verified);
    let with_empty = bls_verify_proof(BlsVerifyProofContext {
        proof: bundle,
        public_key: dpk,
        messages: attr_bytes(&["alice"]),
        nonce: vec![],
    });
    assert!(!with_empty.verified);
}

#[test]
fn create_rejects_out_of_bounds_index() {
    let attrs = ["alice", "30", "US"];
    let (sig, dpk) = issue(5, &attrs);
    let r = bls_create_proof(BlsCreateProofRequest {
        signature: sig,
        public_key: dpk,
        messages: attr_bytes(&attrs),
        revealed: vec![0, 3],
        nonce: vec![],
    });
    assert!(matches!(r, Err(BbsError::RevealedIndexOutOfBounds)));
}

#[test]
fn multi_roundtrip_with_equivalence() {
    let attrs0 = ["alice", "30"];
    let attrs1 = ["alice", "refugee"];
    let (sig0, dpk0) = issue(6, &attrs0);
    let (sig1, dpk1) = issue(7, &attrs1);
    let bundle = bls_create_proof_multi(BlsCreateProofMultiRequest {
        signature: vec![sig0, sig1],
        public_key: vec![dpk0, dpk1],
        messages: vec![attr_bytes(&attrs0), attr_bytes(&attrs1)],
        revealed: vec![vec![0, 1], vec![0]],
        nonce: vec![9, 9],
        equivs: vec![vec![(0, 0), (1, 0)]],
    })
    .unwrap();
    assert_eq!(bundle.len(), 2);
    // The linked attribute is requested revealed but stays hidden under the
    // shared blinding, so only index 1 of the first credential is disclosed.
    assert_eq!(bundle[0].revealed, vec![1]);
    assert!(bundle[1].revealed.is_empty());
    assert_eq!(bundle[0].message_count, 2);
    let res = bls_verify_proof_multi(BlsVerifyProofMultiContext {
        proof: bundle,
        public_key: vec![dpk0, dpk1],
        messages: vec![attr_bytes(&["30"]), vec![]],
        nonce: vec![9, 9],
    });
    assert!(res.verified, "{:?}", res.error);
}

#[test]
fn multi_verify_rejects_length_mismatch() {
    let attrs = ["alice"];
    let (sig, dpk) = issue(8, &attrs);
    let bundle = bls_create_proof_multi(BlsCreateProofMultiRequest {
        signature: vec![sig],
        public_key: vec![dpk],
        messages: vec![attr_bytes(&attrs)],
        revealed: vec![vec![0]],
        nonce: vec![],
        equivs: vec![],
    })
    .unwrap();
    let res = bls_verify_proof_multi(BlsVerifyProofMultiContext {
        proof: bundle,
        public_key: vec![dpk, dpk],
        messages: vec![attr_bytes(&["alice"])],
        nonce: vec![],
    });
    assert!(!res.verified);
    assert_eq!(
        res.error.unwrap(),
        "numbers of messages, proof, and publicKey must be the same"
    );
}

#[test]
fn multi_create_rejects_length_mismatch() {
    let attrs = ["alice"];
    let (sig, dpk) = issue(9, &attrs);
    let r = bls_create_proof_multi(BlsCreateProofMultiRequest {
        signature: vec![sig],
        public_key: vec![dpk],
        messages: vec![attr_bytes(&attrs), attr_bytes(&["bob"])],
        revealed: vec![vec![0], vec![]],
        nonce: vec![],
        equivs: vec![],
    });
    assert!(matches!(r, Err(BbsError::InputLengthMismatch)));
}

#[test]
fn multi_proof_bound_to_nonce() {
    let attrs = ["alice", "30"];
    let (sig, dpk) = issue(10, &attrs);
    let bundle = bls_create_proof_multi(BlsCreateProofMultiRequest {
        signature: vec![sig],
        public_key: vec![dpk],
        messages: vec![attr_bytes(&attrs)],
        revealed: vec![vec![1]],
        nonce: vec![1],
        equivs: vec![],
    })
    .unwrap();
    let with_same = bls_verify_proof_multi(BlsVerifyProofMultiContext {
        proof: bundle.clone(),
        public_key: vec![dpk],
        messages: vec![attr_bytes(&["30"])],
        nonce: vec![1],
    });
    assert!(with_same.verified, "{:?}", with_same.error);
    let with_other = bls_verify_proof_multi(BlsVerifyProofMultiContext {
        proof: bundle,
        public_key: vec![dpk],
        messages: vec![attr_bytes(&["30"])],
        nonce: vec![2],
    });
    assert!(!with_other.verified);
    assert!(with_other.error.is_some());
}

#[test]
fn create_rejects_mismatched_signature() {
    let (sig, dpk) = issue(11, &["alice", "30"]);
    let r = bls_create_proof(BlsCreateProofRequest {
        signature: sig,
        public_key: dpk,
        messages: attr_bytes(&["alice", "31"]),
        revealed: vec![0],
        nonce: vec![],
    });
    assert!(matches!(r, Err(BbsError::ProofInitError(_))));
}

#[test]
fn verify_rejects_malformed_bundle_shape() {
    let (_, dpk) = issue(12, &["alice"]);
    // One disclosed index but no disclosed value: rejected before any
    // cryptographic work.
    let mismatched = bls_verify_proof(BlsVerifyProofContext {
        proof: CredentialProof {
            message_count: 1,
            revealed: vec![0],
            proof: PoKOfSignatureProof::default(),
        },
        public_key: dpk,
        messages: vec![],
        nonce: vec![],
    });
    assert!(!mismatched.verified);
    assert!(mismatched.error.is_some());
    // A zero message count cannot yield a verification key.
    let zero_count = bls_verify_proof(BlsVerifyProofContext {
        proof: CredentialProof {
            message_count: 0,
            revealed: vec![],
            proof: PoKOfSignatureProof::default(),
        },
        public_key: dpk,
        messages: vec![],
        nonce: vec![],
    });
    assert!(!zero_count.verified);
    assert!(zero_count.error.is_some());
}

#[test]
fn multi_equivalence_covers_unlisted_members() {
    // The linked attribute of the second credential is not listed in its
    // revealed set; the equivalence class still hides it under the shared
    // blinding, and the presentation verifies.
    let attrs0 = ["alice", "30"];
    let attrs1 = ["alice"];
    let (sig0, dpk0) = issue(13, &attrs0);
    let (sig1, dpk1) = issue(14, &attrs1);
    let bundle = bls_create_proof_multi(BlsCreateProofMultiRequest {
        signature: vec![sig0, sig1],
        public_key: vec![dpk0, dpk1],
        messages: vec![attr_bytes(&attrs0), attr_bytes(&attrs1)],
        revealed: vec![vec![0, 1], vec![]],
        nonce: vec![],
        equivs: vec![vec![(0, 0), (1, 0)]],
    })
    .unwrap();
    assert_eq!(bundle[0].revealed, vec![1]);
    assert!(bundle[1].revealed.is_empty());
    let res = bls_verify_proof_multi(BlsVerifyProofMultiContext {
        proof: bundle,
        public_key: vec![dpk0, dpk1],
        messages: vec![attr_bytes(&["30"]), vec![]],
        nonce: vec![],
    });
    assert!(res.verified, "{:?}", res.error);
}

#[test]
fn multi_equivalence_mismatch_is_not_detected() {
    // The verification request carries no equivalence information and the
    // engine performs no cross-credential equality check, so a presentation
    // built over *different* linked values still passes the per-credential
    // checks.  Equivalence soundness rests entirely on the underlying proof
    // algebra, an open question of this design; this test documents the
    // actual behaviour of the chosen primitive.
    let attrs0 = ["alice", "30"];
    let attrs1 = ["bob"];
    let (sig0, dpk0) = issue(15, &attrs0);
    let (sig1, dpk1) = issue(16, &attrs1);
    let bundle = bls_create_proof_multi(BlsCreateProofMultiRequest {
        signature: vec![sig0, sig1],
        public_key: vec![dpk0, dpk1],
        messages: vec![attr_bytes(&attrs0), attr_bytes(&attrs1)],
        revealed: vec![vec![0, 1], vec![0]],
        nonce: vec![],
        equivs: vec![vec![(0, 0), (1, 0)]],
    })
    .unwrap();
    let res = bls_verify_proof_multi(BlsVerifyProofMultiContext {
        proof: bundle,
        public_key: vec![dpk0, dpk1],
        messages: vec![attr_bytes(&["30"]), vec![]],
        nonce: vec![],
    });
    assert!(res.verified, "{:?}", res.error);
}
