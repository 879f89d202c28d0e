//! Trusted interface to the BBS+ signature primitive.
//!
//! Every function here is a thin `external_body` wrapper around one call into
//! the `bbs` crate (or, for key generation, the `pairing-plus`/`hkdf` key
//! derivation it is built on).  The contracts state only what those crates'
//! sources show; deterministic results are named by uninterpreted spec
//! functions so that verified callers can speak about them exactly.

use vstd::prelude::*;

use bbs::keys::{DeterministicPublicKey, KeyGenOption, PublicKey, SecretKey};
use bbs::messages::{HiddenMessage, ProofMessage};
use bbs::pok_sig::{PoKOfSignature, PoKOfSignatureProof};
use bbs::signature::Signature;
use bbs::verifier::Verifier;
use bbs::{
    HashElem, ProofChallenge, ProofNonce, ProofRequest, RandomElem, SignatureProof,
    ToVariableLengthBytes,
};
use hkdf::Hkdf;
use pairing_plus::bls12_381::{Fr, G1, G2};
use pairing_plus::hash_to_field::BaseFromRO;
use pairing_plus::serdes::SerDes;
use pairing_plus::CurveProjective;
use rand::{thread_rng, RngCore};
use sha2::digest::generic_array::typenum::U48;
use sha2::digest::generic_array::GenericArray;
use sha2::Sha256;
use std::collections::{BTreeMap, BTreeSet};

verus! {

#[verifier::external_type_specification]
#[verifier::external_body]
pub struct ExSignatureMessage(bbs::SignatureMessage);

#[verifier::external_type_specification]
#[verifier::external_body]
pub struct ExProofNonce(ProofNonce);

#[verifier::external_type_specification]
#[verifier::external_body]
pub struct ExProofChallenge(ProofChallenge);

#[verifier::external_type_specification]
#[verifier::external_body]
pub struct ExProofMessage(ProofMessage);

#[verifier::external_type_specification]
#[verifier::external_body]
pub struct ExSecretKey(SecretKey);

#[verifier::external_type_specification]
#[verifier::external_body]
pub struct ExPublicKey(PublicKey);

#[verifier::external_type_specification]
#[verifier::external_body]
pub struct ExDeterministicPublicKey(DeterministicPublicKey);

#[verifier::external_type_specification]
#[verifier::external_body]
pub struct ExSignature(Signature);

#[verifier::external_type_specification]
#[verifier::external_body]
pub struct ExPoKOfSignature(PoKOfSignature);

#[verifier::external_type_specification]
#[verifier::external_body]
pub struct ExPoKOfSignatureProof(PoKOfSignatureProof);

/// Relies on the derived `Clone` of `bbs::pok_sig::PoKOfSignatureProof`: a
/// field-by-field copy, equal to the original.
pub assume_specification[ <PoKOfSignatureProof as Clone>::clone ](
    p: &PoKOfSignatureProof,
) -> (r: PoKOfSignatureProof)
    ensures
        r == *p,
;

/// Width in bytes of a serialized field element, the unit in which
/// Fiat-Shamir transcripts are extended by a nonce (or its placeholder).
pub const FIELD_BYTES: usize = 32;

/// The field element that `bbs::SignatureMessage::hash` derives from a byte
/// string (deterministic, collision-resistant).
pub uninterp spec fn message_of(data: Seq<u8>) -> bbs::SignatureMessage;

/// The nonce value that `bbs::ProofNonce::hash` derives from a byte string.
pub uninterp spec fn nonce_of(data: Seq<u8>) -> ProofNonce;

/// The all-zero nonce, `bbs::ProofNonce::default()`.
pub uninterp spec fn zero_nonce(unit: ()) -> ProofNonce;

/// The 32-byte serialized form of the nonce hashed from a byte string, as
/// appended to a challenge transcript.
pub uninterp spec fn nonce_block_of(data: Seq<u8>) -> Seq<u8>;

/// The challenge scalar that `bbs::ProofChallenge::hash` derives from a
/// transcript.
pub uninterp spec fn challenge_of(transcript: Seq<u8>) -> ProofChallenge;

/// The BBS+ public key that `DeterministicPublicKey::to_public_key` derives
/// for a given message count.
pub uninterp spec fn derived_public_key(
    dpk: DeterministicPublicKey,
    message_count: usize,
) -> PublicKey;

/// How many messages a BBS+ public key covers (`PublicKey::message_count`).
pub uninterp spec fn key_message_count(pk: PublicKey) -> usize;

/// The key commitment read back from its first 96 serialized bytes, where
/// they parse as a compressed G2 point.
pub uninterp spec fn dpk_from_seq(data: Seq<u8>) -> DeterministicPublicKey;

/// Whether 96 serialized bytes parse as a compressed G2 point.
pub uninterp spec fn dpk_parses(data: Seq<u8>) -> bool;

/// The key commitment `g2^sk` computed from a secret key.
pub uninterp spec fn dpk_of_secret(sk: SecretKey) -> DeterministicPublicKey;

/// Whether `Signature::verify` accepts a signature over these field elements
/// under this public key (deterministic).
pub uninterp spec fn sig_accepts(
    sig: Signature,
    pk: PublicKey,
    messages: Seq<bbs::SignatureMessage>,
) -> bool;

/// The `ProofMessage::Revealed` classification of a field element.
pub uninterp spec fn pm_revealed_of(m: bbs::SignatureMessage) -> ProofMessage;

/// The `ProofMessage::Hidden(ProofSpecificBlinding(..))` classification.
pub uninterp spec fn pm_hidden_of(m: bbs::SignatureMessage) -> ProofMessage;

/// The `ProofMessage::Hidden(ExternalBlinding(..))` classification carrying a
/// shared blinding value.
pub uninterp spec fn pm_shared_of(m: bbs::SignatureMessage, blinding: ProofNonce) -> ProofMessage;

/// The field element carried inside a classified proof message
/// (`ProofMessage::get_message`).
pub uninterp spec fn pm_value_of(m: ProofMessage) -> bbs::SignatureMessage;

/// Whether `Verifier::verify_signature_pok` accepts a proof, given the
/// revealed indices paired positionally with revealed field elements, under a
/// public key and a nonce (deterministic).
pub uninterp spec fn pok_accepts(
    proof: PoKOfSignatureProof,
    pk: PublicKey,
    revealed: Seq<usize>,
    messages: Seq<bbs::SignatureMessage>,
    nonce: ProofNonce,
) -> bool;

/// The challenge-transcript bytes a proof contributes
/// (`PoKOfSignatureProof::get_bytes_for_challenge`, deterministic).
pub uninterp spec fn challenge_input_of(
    proof: PoKOfSignatureProof,
    revealed: Seq<usize>,
    pk: PublicKey,
) -> Seq<u8>;

/// Whether `PoKOfSignatureProof::verify` reports success for a proof against
/// revealed indices paired positionally with revealed field elements, a
/// public key, and a challenge (deterministic).
pub uninterp spec fn proof_accepts(
    proof: PoKOfSignatureProof,
    pk: PublicKey,
    revealed: Seq<usize>,
    messages: Seq<bbs::SignatureMessage>,
    challenge: ProofChallenge,
) -> bool;

/// The BLS12-381 G2 key pair (public key bytes, secret key) derived from seed
/// bytes by the HKDF key-generation path.
pub uninterp spec fn g2_keypair_of(seed: Seq<u8>) -> (Seq<u8>, SecretKey);

/// The BLS12-381 G1 key pair (public key bytes, secret key) derived from seed
/// bytes by the HKDF key-generation path.
pub uninterp spec fn g1_keypair_of(seed: Seq<u8>) -> (Seq<u8>, SecretKey);

/// Relies on `bbs::SignatureMessage::hash`: a deterministic hash of bytes to
/// a field element.
#[verifier::external_body]
pub(crate) fn hash_message(data: &Vec<u8>) -> (m: bbs::SignatureMessage)
    ensures
        m == message_of(data@),
{
    bbs::SignatureMessage::hash(data)
}

/// Relies on `bbs::ProofNonce::hash`: a deterministic hash of bytes to a
/// nonce value.
#[verifier::external_body]
pub(crate) fn hash_nonce(data: &Vec<u8>) -> (n: ProofNonce)
    ensures
        n == nonce_of(data@),
{
    ProofNonce::hash(data)
}

/// Relies on `bbs::ProofNonce::default`: the all-zero nonce used when a
/// presentation carries no nonce.
#[verifier::external_body]
pub(crate) fn default_nonce() -> (n: ProofNonce)
    ensures
        n == zero_nonce(()),
{
    ProofNonce::default()
}

/// Relies on `bbs::ProofNonce::hash` and `to_bytes_uncompressed_form`: the
/// 32-byte serialized form of the hashed nonce, appended to challenge
/// transcripts.
#[verifier::external_body]
pub(crate) fn hashed_nonce_block(data: &Vec<u8>) -> (r: Vec<u8>)
    ensures
        r@ == nonce_block_of(data@),
        r@.len() == FIELD_BYTES,
{
    ProofNonce::hash(data).to_bytes_uncompressed_form().to_vec()
}

/// Relies on `bbs::ProofChallenge::hash`: the Fiat-Shamir challenge scalar of
/// a transcript.
#[verifier::external_body]
pub(crate) fn hash_challenge(data: &Vec<u8>) -> (c: ProofChallenge)
    ensures
        c == challenge_of(data@),
{
    ProofChallenge::hash(data)
}

/// Relies on `bbs::ProofNonce::random`: a fresh blinding value from a
/// cryptographically secure generator.  Nothing is promised of its value.
#[verifier::external_body]
pub(crate) fn fresh_blinding() -> ProofNonce {
    ProofNonce::random()
}

/// Relies on `rand::thread_rng` and `RngCore::fill_bytes`: 32 fresh seed
/// bytes.  Nothing is promised of their values.
#[verifier::external_body]
pub(crate) fn fresh_seed() -> (s: Vec<u8>)
    ensures
        s@.len() == 32,
{
    let mut s = vec![0u8; 32];
    thread_rng().fill_bytes(s.as_mut_slice());
    s
}

/// Relies on `DeterministicPublicKey::to_public_key`: derives the per-message
/// generators for a key; its only failure is a message count of zero, and the
/// derived key covers exactly `message_count` messages.
#[verifier::external_body]
pub(crate) fn derive_key(dpk: &DeterministicPublicKey, message_count: usize) -> (r: Result<
    PublicKey,
    String,
>)
    ensures
        r is Ok <==> message_count > 0,
        r matches Ok(pk) ==> pk == derived_public_key(*dpk, message_count)
            && key_message_count(pk) == message_count,
{
    dpk.to_public_key(message_count).map_err(|e| format!("{:?}", e))
}

/// Relies on bbs's `TryFrom<&[u8]>` for `DeterministicPublicKey`: reads a
/// key commitment from its first 96 serialized bytes.  Bytes that are not a
/// valid compressed G2 point are reported as an error, never a panic.
#[verifier::external_body]
pub(crate) fn key_commitment_from_bytes(data: &Vec<u8>) -> (r: Result<
    DeterministicPublicKey,
    String,
>)
    requires
        data@.len() >= 96,
    ensures
        r is Ok <==> dpk_parses(data@.take(96)),
        r matches Ok(d) ==> d == dpk_from_seq(data@.take(96)),
{
    DeterministicPublicKey::try_from(&data[..96]).map_err(|e| format!("{:?}", e))
}

/// Relies on `DeterministicPublicKey::new` with `FromSecretKey`: computes the
/// commitment `g2^sk` and hands the same secret key back.
#[verifier::external_body]
pub(crate) fn key_commitment_from_secret(sk: &SecretKey) -> (r: (DeterministicPublicKey, SecretKey))
    ensures
        r.0 == dpk_of_secret(*sk),
        r.1 == *sk,
{
    DeterministicPublicKey::new(Some(KeyGenOption::FromSecretKey(sk.clone())))
}

/// Relies on `Signature::new`: produces a randomized BBS+ signature; its only
/// failure is a message list longer than the key covers.  A produced
/// signature verifies over the same field elements under the same key: the
/// signing equation is exactly what `Signature::verify`'s pairing check
/// restates, and the crate's own validation test states the round trip.
#[verifier::external_body]
pub(crate) fn sign_messages(
    messages: &Vec<bbs::SignatureMessage>,
    sk: &SecretKey,
    pk: &PublicKey,
) -> (r: Result<Signature, String>)
    ensures
        r is Ok <==> messages@.len() <= key_message_count(*pk),
        r matches Ok(sig) ==> sig_accepts(sig, *pk, messages@),
{
    Signature::new(messages.as_slice(), sk, pk).map_err(|e| format!("{:?}", e))
}

/// Relies on `Signature::verify`: deterministically checks a signature over
/// field elements; it reports an error exactly when the message count differs
/// from the key's.
#[verifier::external_body]
pub(crate) fn verify_signature(
    sig: &Signature,
    messages: &Vec<bbs::SignatureMessage>,
    pk: &PublicKey,
) -> (r: Result<bool, String>)
    ensures
        r is Ok <==> messages@.len() == key_message_count(*pk),
        r matches Ok(b) ==> b == sig_accepts(*sig, *pk, messages@),
{
    sig.verify(messages.as_slice(), pk).map_err(|e| format!("{:?}", e))
}

/// Relies on the `ProofMessage::Revealed` constructor.
#[verifier::external_body]
pub(crate) fn make_revealed_message(m: bbs::SignatureMessage) -> (p: ProofMessage)
    ensures
        p == pm_revealed_of(m),
        pm_value_of(p) == m,
{
    ProofMessage::Revealed(m)
}

/// Relies on the `ProofMessage::Hidden(ProofSpecificBlinding(..))`
/// constructor: the message stays hidden under a blinding fresh to this
/// proof.
#[verifier::external_body]
pub(crate) fn make_hidden_message(m: bbs::SignatureMessage) -> (p: ProofMessage)
    ensures
        p == pm_hidden_of(m),
        pm_value_of(p) == m,
{
    ProofMessage::Hidden(HiddenMessage::ProofSpecificBlinding(m))
}

/// Relies on the `ProofMessage::Hidden(ExternalBlinding(..))` constructor:
/// the message stays hidden under a blinding shared with other proofs.
#[verifier::external_body]
pub(crate) fn make_shared_message(m: bbs::SignatureMessage, blinding: ProofNonce) -> (p: ProofMessage)
    ensures
        p == pm_shared_of(m, blinding),
        pm_value_of(p) == m,
{
    ProofMessage::Hidden(HiddenMessage::ExternalBlinding(m, blinding))
}

/// Relies on `PoKOfSignature::init`: builds the randomized per-credential
/// commitment.  Its source accepts exactly when the message count matches the
/// key and the signature verifies over the carried field elements.
#[verifier::external_body]
pub(crate) fn init_commitment(
    sig: &Signature,
    pk: &PublicKey,
    messages: &Vec<ProofMessage>,
) -> (r: Result<PoKOfSignature, String>)
    ensures
        r is Ok <==> (messages@.len() == key_message_count(*pk) && sig_accepts(
            *sig,
            *pk,
            messages@.map_values(|m: ProofMessage| pm_value_of(m)),
        )),
{
    PoKOfSignature::init(sig, pk, messages.as_slice()).map_err(|e| format!("{:?}", e))
}

/// Relies on `PoKOfSignature::to_bytes`: the commitment's transcript bytes
/// for challenge computation.
#[verifier::external_body]
pub(crate) fn commitment_bytes(pok: &PoKOfSignature) -> Vec<u8> {
    pok.to_bytes()
}

/// Relies on `PoKOfSignature::gen_proof`: consumes the single-use commitment
/// and produces the per-credential proof for a challenge.  Its only error is
/// a mismatch between a commitment's generators and its secrets, and
/// `PoKOfSignature::init` — the type's sole constructor — always builds the
/// two with matching lengths, so finishing a commitment always succeeds.
#[verifier::external_body]
pub(crate) fn finish_commitment(pok: PoKOfSignature, challenge: &ProofChallenge) -> (r: Result<
    PoKOfSignatureProof,
    String,
>)
    ensures
        r is Ok,
{
    pok.gen_proof(challenge).map_err(|e| format!("{:?}", e))
}

/// Relies on `Verifier::verify_signature_pok`: deterministically checks one
/// self-contained proof, re-deriving its challenge from the proof and the
/// nonce.  The revealed indices are paired positionally with the field
/// elements, as the source's map construction does.
#[verifier::external_body]
pub(crate) fn check_signature_proof(
    proof: &PoKOfSignatureProof,
    pk: &PublicKey,
    revealed: &Vec<usize>,
    messages: &Vec<bbs::SignatureMessage>,
    nonce: &ProofNonce,
) -> (r: bool)
    ensures
        r == pok_accepts(*proof, *pk, revealed@, messages@, *nonce),
{
    let set: BTreeSet<usize> = revealed.iter().cloned().collect();
    let map: BTreeMap<usize, bbs::SignatureMessage> =
        set.iter().cloned().zip(messages.iter().cloned()).collect();
    let pr = ProofRequest { revealed_messages: set, verification_key: pk.clone() };
    let sp = SignatureProof { revealed_messages: map, proof: proof.clone() };
    Verifier::verify_signature_pok(&pr, &sp, nonce).is_ok()
}

/// Relies on `PoKOfSignatureProof::get_bytes_for_challenge`: the bytes a
/// received proof contributes to the re-derived presentation challenge.
#[verifier::external_body]
pub(crate) fn challenge_input(
    proof: &PoKOfSignatureProof,
    revealed: &Vec<usize>,
    pk: &PublicKey,
) -> (r: Vec<u8>)
    ensures
        r@ == challenge_input_of(*proof, revealed@, *pk),
{
    let set: BTreeSet<usize> = revealed.iter().cloned().collect();
    proof.get_bytes_for_challenge(set, pk)
}

/// Relies on `PoKOfSignatureProof::verify` and
/// `PoKOfSignatureProofStatus::is_valid`: deterministically checks one proof
/// against a supplied challenge; on failure the primitive's description is
/// handed back.
#[verifier::external_body]
pub(crate) fn check_credential_proof(
    proof: &PoKOfSignatureProof,
    pk: &PublicKey,
    revealed: &Vec<usize>,
    messages: &Vec<bbs::SignatureMessage>,
    challenge: &ProofChallenge,
) -> (r: Result<(), String>)
    ensures
        r is Ok <==> proof_accepts(*proof, *pk, revealed@, messages@, *challenge),
{
    let map: BTreeMap<usize, bbs::SignatureMessage> =
        revealed.iter().cloned().zip(messages.iter().cloned()).collect();
    match proof.verify(pk, &map, challenge) {
        Ok(s) => if s.is_valid() { Ok(()) } else { Err(format!("{}", s)) },
        Err(e) => Err(format!("{:?}", e)),
    }
}

/// Relies on the HKDF-SHA256 secret-key derivation (`hkdf`, `Fr::from_okm`)
/// and on G2 arithmetic and serialization from `pairing-plus`: the key pair
/// deterministically derived from seed bytes; the public part is the 96-byte
/// compressed G2 point.
#[verifier::external_body]
pub(crate) fn generate_g2_keypair(seed: &Vec<u8>) -> (r: (Vec<u8>, SecretKey))
    ensures
        (r.0@, r.1) == g2_keypair_of(seed@),
        r.0@.len() == 96,
{
    let mut ikm = Vec::with_capacity(seed.len() + 1);
    ikm.extend_from_slice(seed.as_slice());
    ikm.push(0u8);
    let mut okm = GenericArray::<u8, U48>::default();
    Hkdf::<Sha256>::new(Some(b"BLS-SIG-KEYGEN-SALT-"), &ikm).expand(&[0, 48], &mut okm).unwrap();
    let fr = Fr::from_okm(&okm);
    let mut pk = G2::one();
    pk.mul_assign(fr);
    let mut pk_bytes = Vec::new();
    pk.serialize(&mut pk_bytes, true).unwrap();
    (pk_bytes, SecretKey::from(fr))
}

/// Relies on the HKDF-SHA256 secret-key derivation (`hkdf`, `Fr::from_okm`)
/// and on G1 arithmetic and serialization from `pairing-plus`: the key pair
/// deterministically derived from seed bytes; the public part is the 48-byte
/// compressed G1 point.
#[verifier::external_body]
pub(crate) fn generate_g1_keypair(seed: &Vec<u8>) -> (r: (Vec<u8>, SecretKey))
    ensures
        (r.0@, r.1) == g1_keypair_of(seed@),
        r.0@.len() == 48,
{
    let mut ikm = Vec::with_capacity(seed.len() + 1);
    ikm.extend_from_slice(seed.as_slice());
    ikm.push(0u8);
    let mut okm = GenericArray::<u8, U48>::default();
    Hkdf::<Sha256>::new(Some(b"BLS-SIG-KEYGEN-SALT-"), &ikm).expand(&[0, 48], &mut okm).unwrap();
    let fr = Fr::from_okm(&okm);
    let mut pk = G1::one();
    pk.mul_assign(fr);
    let mut pk_bytes = Vec::new();
    pk.serialize(&mut pk_bytes, true).unwrap();
    (pk_bytes, SecretKey::from(fr))
}

} // verus!
