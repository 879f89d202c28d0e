//! Key generation and key conversion.
//!
//! BLS12-381 key pairs are derived from seed material by the HKDF path of
//! the signature library; a BLS public-key commitment is expanded into a
//! BBS+ public key with one generator per message.  The derivations
//! themselves are external collaborators (see [`crate::primitives`]); this
//! module verifies the surrounding key handling and its failure conditions.

use vstd::prelude::*;

use crate::errors::BbsError;
use crate::primitives::{
    derive_key, derived_public_key, dpk_from_seq, dpk_of_secret, dpk_parses, fresh_seed,
    g1_keypair_of, g2_keypair_of, generate_g1_keypair, generate_g2_keypair,
    key_commitment_from_bytes, key_commitment_from_secret,
};
use bbs::keys::{DeterministicPublicKey, PublicKey, SecretKey};

verus! {

broadcast use vstd::string::to_string_from_display_ensures_for_str;

/// A BLS12-381 key pair at the presentation boundary.  Either part may be
/// absent: a verifier holds only the public part, an issuer may supply only
/// the secret part.
pub struct BlsKeyPair {
    /// The serialized public key (96 bytes on G2, 48 bytes on G1).
    pub public_key: Option<Vec<u8>>,
    /// The secret key.
    pub secret_key: Option<SecretKey>,
}

/// A request to expand a BLS key pair into a BBS+ key pair covering
/// `message_count` messages.
pub struct Bls12381ToBbsRequest {
    /// The key pair to expand; at least one part must be present.
    pub key_pair: BlsKeyPair,
    /// How many messages the BBS+ key must cover; must be positive.
    pub message_count: usize,
}

/// A BBS+ key pair: the expanded public key, the optional secret key, and
/// the message count the public key was derived for.
pub struct BbsKeyPair {
    /// The BBS+ public key, one generator per message.
    pub public_key: PublicKey,
    /// The secret key, when one was supplied.
    pub secret_key: Option<SecretKey>,
    /// The message count the public key covers.
    pub message_count: usize,
}

/// A request to sign raw messages with a BLS key pair.
pub struct BlsBbsSignRequest {
    /// The signer's key pair; both parts are needed.
    pub key_pair: BlsKeyPair,
    /// The raw messages to sign.
    pub messages: Vec<Vec<u8>>,
}

/// A request to verify a BBS+ signature over raw messages.
pub struct BlsBbsVerifyRequest {
    /// The issuer's key commitment.
    pub public_key: DeterministicPublicKey,
    /// The signature to check.
    pub signature: bbs::signature::Signature,
    /// The raw messages the signature is claimed to cover.
    pub messages: Vec<Vec<u8>>,
}

/// Generates a BLS12-381 key pair on G2.  With a seed the derivation is
/// deterministic; without one, 32 fresh seed bytes are drawn.  The public
/// part is the 96-byte compressed G2 point.
pub fn bls_generate_g2_key(seed: Option<Vec<u8>>) -> (r: BlsKeyPair)
    ensures
        r.public_key matches Some(p) && p@.len() == 96,
        r.secret_key is Some,
        seed is Some ==> (r.public_key->Some_0)@ == g2_keypair_of((seed->Some_0)@).0
            && r.secret_key->Some_0 == g2_keypair_of((seed->Some_0)@).1,
{
    let seed_bytes = match seed {
        Some(s) => s,
        None => fresh_seed(),
    };
    let (pk_bytes, sk) = generate_g2_keypair(&seed_bytes);
    BlsKeyPair { public_key: Some(pk_bytes), secret_key: Some(sk) }
}

/// Generates a BLS12-381 key pair on G1.  With a seed the derivation is
/// deterministic; without one, 32 fresh seed bytes are drawn.  The public
/// part is the 48-byte compressed G1 point.
pub fn bls_generate_g1_key(seed: Option<Vec<u8>>) -> (r: BlsKeyPair)
    ensures
        r.public_key matches Some(p) && p@.len() == 48,
        r.secret_key is Some,
        seed is Some ==> (r.public_key->Some_0)@ == g1_keypair_of((seed->Some_0)@).0
            && r.secret_key->Some_0 == g1_keypair_of((seed->Some_0)@).1,
{
    let seed_bytes = match seed {
        Some(s) => s,
        None => fresh_seed(),
    };
    let (pk_bytes, sk) = generate_g1_keypair(&seed_bytes);
    BlsKeyPair { public_key: Some(pk_bytes), secret_key: Some(sk) }
}

/// Expands a BLS key pair into a BBS+ key pair for a message count.
///
/// A zero message count is rejected; a supplied public key must hold at
/// least 96 bytes, of which the first 96 must parse as a compressed G2
/// commitment; with only a secret key the commitment is recomputed from it;
/// with neither part the request is rejected.
pub fn bls_to_bbs_key(request: Bls12381ToBbsRequest) -> (r: Result<BbsKeyPair, BbsError>)
    ensures
        request.message_count == 0 ==> r matches Err(BbsError::InvalidKey),
        request.message_count > 0 ==> (request.key_pair.public_key matches Some(b) ==> (if b@.len()
            < 96 || !dpk_parses(b@.take(96)) {
            r matches Err(BbsError::InvalidKey)
        } else {
            r matches Ok(kp) && kp.public_key == derived_public_key(
                dpk_from_seq(b@.take(96)),
                request.message_count,
            ) && kp.message_count == request.message_count && kp.secret_key
                == request.key_pair.secret_key
        })),
        (request.message_count > 0 && request.key_pair.public_key is None
            && request.key_pair.secret_key is Some) ==> r is Ok && r->Ok_0.public_key
            == derived_public_key(
            dpk_of_secret(request.key_pair.secret_key->Some_0),
            request.message_count,
        ) && r->Ok_0.message_count == request.message_count && r->Ok_0.secret_key is Some
            && r->Ok_0.secret_key->Some_0 == request.key_pair.secret_key->Some_0,
        (request.message_count > 0 && request.key_pair.public_key is None
            && request.key_pair.secret_key is None) ==> r matches Err(BbsError::MissingKey),
{
    if request.message_count == 0 {
        return Err(BbsError::InvalidKey);
    }
    match request.key_pair.public_key {
        Some(bytes) => {
            if bytes.len() < 96 {
                return Err(BbsError::InvalidKey);
            }
            let dpk = match key_commitment_from_bytes(&bytes) {
                Ok(d) => d,
                Err(_) => {
                    return Err(BbsError::InvalidKey);
                }
            };
            match derive_key(&dpk, request.message_count) {
                Ok(pk) => Ok(
                    BbsKeyPair {
                        public_key: pk,
                        secret_key: request.key_pair.secret_key,
                        message_count: request.message_count,
                    },
                ),
                Err(_) => Err(BbsError::InvalidKey),
            }
        }
        None => match request.key_pair.secret_key {
            Some(sk) => {
                let (dpk, sk2) = key_commitment_from_secret(&sk);
                match derive_key(&dpk, request.message_count) {
                    Ok(pk) => Ok(
                        BbsKeyPair {
                            public_key: pk,
                            secret_key: Some(sk2),
                            message_count: request.message_count,
                        },
                    ),
                    Err(_) => Err(BbsError::InvalidKey),
                }
            }
            None => Err(BbsError::MissingKey),
        },
    }
}

/// Signs a set of raw messages with a BLS key pair, producing a BBS+
/// signature.
///
/// The public part must be present, hold at least 96 bytes, and parse as a
/// G2 commitment; an empty message list cannot yield a key and is rejected;
/// the secret part must be present.  When all of that holds, a signature is
/// produced; its value is randomized, but it verifies over the hashed
/// messages under the derived key.
pub fn bls_sign(request: BlsBbsSignRequest) -> (r: Result<bbs::signature::Signature, BbsError>)
    ensures
        request.key_pair.public_key is None ==> r matches Err(BbsError::MissingKey),
        request.key_pair.public_key matches Some(b) ==> (if b@.len() < 96 || !dpk_parses(
            b@.take(96),
        ) {
            r matches Err(BbsError::InvalidKey)
        } else if request.messages@.len() == 0 {
            r matches Err(BbsError::InvalidKey)
        } else if request.key_pair.secret_key is None {
            r matches Err(BbsError::MissingSecretKey)
        } else {
            r matches Ok(sig) && crate::primitives::sig_accepts(
                sig,
                derived_public_key(dpk_from_seq(b@.take(96)), request.messages@.len() as usize),
                crate::encoding::hashed_messages(request.messages@),
            )
        }),
{
    let n = request.messages.len();
    let bytes = match request.key_pair.public_key {
        Some(b) => b,
        None => {
            return Err(BbsError::MissingKey);
        }
    };
    if bytes.len() < 96 {
        return Err(BbsError::InvalidKey);
    }
    let dpk = match key_commitment_from_bytes(&bytes) {
        Ok(d) => d,
        Err(_) => {
            return Err(BbsError::InvalidKey);
        }
    };
    let pk = match derive_key(&dpk, n) {
        Ok(pk) => pk,
        Err(_) => {
            return Err(BbsError::InvalidKey);
        }
    };
    let sk = match request.key_pair.secret_key {
        Some(s) => s,
        None => {
            return Err(BbsError::MissingSecretKey);
        }
    };
    let hashed = crate::encoding::hash_attributes(&request.messages);
    match crate::primitives::sign_messages(&hashed, &sk, &pk) {
        Ok(sig) => Ok(sig),
        Err(e) => Err(BbsError::SigningError(e)),
    }
}

/// Verifies a BBS+ signature over raw messages under a BLS key commitment.
///
/// An empty message list is rejected in the response; otherwise the response
/// reports exactly whether the signature primitive accepts the signature
/// over the hashed messages under the key derived for the message count.
pub fn bls_verify(request: BlsBbsVerifyRequest) -> (r: crate::errors::BbsVerifyResponse)
    ensures
        request.messages@.len() == 0 ==> !r.verified && (r.error matches Some(e) && e@
            == "Messages cannot be empty"@),
        request.messages@.len() > 0 ==> r.error is None && r.verified
            == crate::primitives::sig_accepts(
            request.signature,
            derived_public_key(request.public_key, request.messages@.len() as usize),
            crate::encoding::hashed_messages(request.messages@),
        ),
{
    if request.messages.len() == 0 {
        return crate::errors::BbsVerifyResponse {
            verified: false,
            error: Some("Messages cannot be empty".to_string()),
        };
    }
    let n = request.messages.len();
    let pk = match derive_key(&request.public_key, n) {
        Ok(pk) => pk,
        Err(e) => {
            return crate::errors::BbsVerifyResponse { verified: false, error: Some(e) };
        }
    };
    let hashed = crate::encoding::hash_attributes(&request.messages);
    match crate::primitives::verify_signature(&request.signature, &hashed, &pk) {
        Ok(accepted) => crate::errors::BbsVerifyResponse { verified: accepted, error: None },
        Err(e) => crate::errors::BbsVerifyResponse { verified: false, error: Some(e) },
    }
}

} // verus!
