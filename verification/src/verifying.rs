//! The verification engine.
//!
//! Verification never fails with an error value: every failure — malformed
//! request shapes as much as failed cryptographic checks — collapses into a
//! response with `verified == false` and a description of the first failure.
//! A multi-credential presentation re-derives the one shared challenge from
//! the received proofs and the nonce, and accepts only if every credential's
//! proof is valid against it.

use vstd::prelude::*;

use crate::challenge::{aggregate_challenge, presentation_transcript};
use crate::encoding::{hash_attributes, hashed_messages};
use crate::errors::BbsVerifyResponse;
use crate::primitives::{
    challenge_input, challenge_input_of, challenge_of, check_credential_proof,
    check_signature_proof, default_nonce, derive_key, derived_public_key, hash_nonce, nonce_of,
    pok_accepts, proof_accepts, zero_nonce,
};
use crate::proving::CredentialProof;
use bbs::keys::{DeterministicPublicKey, PublicKey};
use bbs::{ProofChallenge, ProofNonce};

verus! {

broadcast use vstd::string::to_string_from_display_ensures_for_str;

/// A request to verify a single-credential presentation: the bundle entry,
/// the issuer's key commitment, the disclosed values (one per disclosed
/// index, in the same order), and the presentation nonce.
pub struct BlsVerifyProofContext {
    /// The received bundle entry.
    pub proof: CredentialProof,
    /// The issuer's key commitment.
    pub public_key: DeterministicPublicKey,
    /// The disclosed attribute values, paired positionally with the entry's
    /// revealed indices.
    pub messages: Vec<Vec<u8>>,
    /// The presentation nonce; may be empty.
    pub nonce: Vec<u8>,
}

/// A request to verify a multi-credential presentation.
pub struct BlsVerifyProofMultiContext {
    /// The received bundle, one entry per credential.
    pub proof: Vec<CredentialProof>,
    /// One issuer key commitment per credential.
    pub public_key: Vec<DeterministicPublicKey>,
    /// Per credential, the disclosed attribute values, paired positionally
    /// with that entry's revealed indices.
    pub messages: Vec<Vec<Vec<u8>>>,
    /// The presentation nonce; may be empty.
    pub nonce: Vec<u8>,
}

/// The nonce value the verifier hands to the primitive: the hash of the
/// presentation nonce, or the all-zero nonce when none was supplied.
pub open spec fn spec_effective_nonce(data: Seq<u8>) -> ProofNonce {
    if data.len() == 0 {
        zero_nonce(())
    } else {
        nonce_of(data)
    }
}

fn effective_nonce(data: &Vec<u8>) -> (n: ProofNonce)
    ensures
        n == spec_effective_nonce(data@),
{
    if data.len() == 0 {
        default_nonce()
    } else {
        hash_nonce(data)
    }
}

/// Whether the primitive accepts a single-credential presentation: the
/// entry's proof, under the key derived for its attribute count, with the
/// hashed disclosed values bound to the disclosed indices, against the
/// effective nonce.
pub open spec fn single_proof_accepted(ctx: BlsVerifyProofContext) -> bool {
    pok_accepts(
        ctx.proof.proof,
        derived_public_key(ctx.public_key, ctx.proof.message_count),
        ctx.proof.revealed@,
        hashed_messages(ctx.messages@),
        spec_effective_nonce(ctx.nonce@),
    )
}

/// Verifies a single-credential presentation.
pub fn bls_verify_proof(request: BlsVerifyProofContext) -> (r: BbsVerifyResponse)
    ensures
        request.proof.revealed@.len() != request.messages@.len() ==> !r.verified && r.error
            is Some,
        (request.proof.revealed@.len() == request.messages@.len() && request.proof.message_count
            == 0) ==> !r.verified && r.error is Some,
        (request.proof.revealed@.len() == request.messages@.len() && request.proof.message_count
            > 0) ==> r.error is None && r.verified == single_proof_accepted(request),
{
    if request.proof.revealed.len() != request.messages.len() {
        return BbsVerifyResponse {
            verified: false,
            error: Some(
                "numbers of revealed indices and revealed messages must be the same".to_string(),
            ),
        };
    }
    let pk = match derive_key(&request.public_key, request.proof.message_count) {
        Ok(pk) => pk,
        Err(e) => {
            return BbsVerifyResponse { verified: false, error: Some(e) };
        }
    };
    let nonce = effective_nonce(&request.nonce);
    let hashed = hash_attributes(&request.messages);
    let accepted = check_signature_proof(
        &request.proof.proof,
        &pk,
        &request.proof.revealed,
        &hashed,
        &nonce,
    );
    BbsVerifyResponse { verified: accepted, error: None }
}

/// The three top-level lists of a multi-credential verification request
/// agree in length.
pub open spec fn multi_verify_lengths_ok(ctx: BlsVerifyProofMultiContext) -> bool {
    ctx.proof@.len() == ctx.messages@.len() && ctx.public_key@.len() == ctx.messages@.len()
}

/// Every entry discloses as many values as it lists indices, and carries a
/// positive attribute count.
pub open spec fn multi_verify_shape_ok(ctx: BlsVerifyProofMultiContext) -> bool {
    forall|k: int|
        0 <= k < ctx.messages@.len() ==> ((#[trigger] ctx.proof@[k]).revealed@.len()
            == ctx.messages@[k]@.len() && ctx.proof@[k].message_count > 0)
}

/// The public key a bundle entry is checked against.
pub open spec fn credential_key(ctx: BlsVerifyProofMultiContext, k: int) -> PublicKey {
    derived_public_key(ctx.public_key@[k], ctx.proof@[k].message_count)
}

/// The challenge-transcript contributions of all received proofs, in bundle
/// order.
pub open spec fn multi_challenge_inputs(ctx: BlsVerifyProofMultiContext) -> Seq<Seq<u8>> {
    Seq::new(
        ctx.proof@.len(),
        |k: int| challenge_input_of(ctx.proof@[k].proof, ctx.proof@[k].revealed@, credential_key(ctx, k)),
    )
}

/// The shared challenge the verifier re-derives for a presentation.
pub open spec fn spec_multi_challenge(ctx: BlsVerifyProofMultiContext) -> ProofChallenge {
    challenge_of(presentation_transcript(multi_challenge_inputs(ctx), ctx.nonce@))
}

/// Whether every credential's proof is valid against the re-derived shared
/// challenge.
pub open spec fn multi_all_accept(ctx: BlsVerifyProofMultiContext) -> bool {
    forall|k: int|
        0 <= k < ctx.proof@.len() ==> #[trigger] proof_accepts(
            ctx.proof@[k].proof,
            credential_key(ctx, k),
            ctx.proof@[k].revealed@,
            hashed_messages(ctx.messages@[k]@),
            spec_multi_challenge(ctx),
        )
}

/// Round-trip shape: a bundle the prover built — one entry per credential,
/// carrying that credential's attribute count and its disclosed indices —
/// presented with one revealed value per disclosed index, is never rejected
/// by the verification engine's shape checks; its outcome is exactly the
/// cryptographic check of every credential's proof.
pub proof fn lemma_round_trip_shape(
    req: crate::proving::BlsCreateProofMultiRequest,
    ctx: BlsVerifyProofMultiContext,
)
    requires
        crate::proving::multi_counts_positive(req),
        ctx.proof@.len() == req.messages@.len(),
        ctx.public_key@.len() == ctx.proof@.len(),
        ctx.messages@.len() == ctx.proof@.len(),
        forall|i: int|
            0 <= i < ctx.proof@.len() ==> (#[trigger] ctx.proof@[i]).message_count
                == req.messages@[i]@.len(),
        forall|i: int|
            0 <= i < ctx.proof@.len() ==> (#[trigger] ctx.messages@[i])@.len()
                == ctx.proof@[i].revealed@.len(),
    ensures
        multi_verify_lengths_ok(ctx),
        multi_verify_shape_ok(ctx),
{
}

/// Verifies a multi-credential presentation.
///
/// The overall result is `verified == true` exactly when the request is
/// well-shaped and every credential's proof is valid against the shared
/// challenge re-derived from all proofs and the nonce; the first failure
/// short-circuits with its description, and nothing beyond pass/fail is
/// reported about individual attributes.
pub fn bls_verify_proof_multi(request: BlsVerifyProofMultiContext) -> (r: BbsVerifyResponse)
    ensures
        !multi_verify_lengths_ok(request) ==> !r.verified && (r.error matches Some(e) && e@
            == "numbers of messages, proof, and publicKey must be the same"@),
        (multi_verify_lengths_ok(request) && multi_verify_shape_ok(request)) ==> r.verified
            == multi_all_accept(request),
        r.verified ==> multi_verify_lengths_ok(request) && multi_verify_shape_ok(request),
        r.verified <==> r.error is None,
{
    let n = request.messages.len();
    if request.proof.len() != n || request.public_key.len() != n {
        return BbsVerifyResponse {
            verified: false,
            error: Some("numbers of messages, proof, and publicKey must be the same".to_string()),
        };
    }
    let mut pks: Vec<PublicKey> = Vec::new();
    let mut chal_inputs: Vec<Vec<u8>> = Vec::new();
    let mut k: usize = 0;
    while k < n
        invariant
            n == request.messages@.len(),
            multi_verify_lengths_ok(request),
            k <= n,
            pks@.len() == k,
            chal_inputs@.len() == k,
            forall|t: int|
                0 <= t < k ==> ((#[trigger] request.proof@[t]).revealed@.len()
                    == request.messages@[t]@.len() && request.proof@[t].message_count > 0),
            forall|t: int| 0 <= t < k ==> #[trigger] pks@[t] == credential_key(request, t),
            forall|t: int|
                0 <= t < k ==> (#[trigger] chal_inputs@[t])@ == multi_challenge_inputs(request)[t],
        decreases n - k,
    {
        let entry = &request.proof[k];
        if entry.revealed.len() != request.messages[k].len() {
            return BbsVerifyResponse {
                verified: false,
                error: Some(
                    "numbers of revealed indices and revealed messages must be the same"
                        .to_string(),
                ),
            };
        }
        let pk = match derive_key(&request.public_key[k], entry.message_count) {
            Ok(pk) => pk,
            Err(e) => {
                return BbsVerifyResponse { verified: false, error: Some(e) };
            }
        };
        chal_inputs.push(challenge_input(&entry.proof, &entry.revealed, &pk));
        pks.push(pk);
        k = k + 1;
    }
    let challenge = aggregate_challenge(&chal_inputs, &request.nonce);
    proof {
        assert(chal_inputs@.map_values(|t: Vec<u8>| t@) =~= multi_challenge_inputs(request));
        assert(challenge == spec_multi_challenge(request));
    }
    let mut j: usize = 0;
    while j < n
        invariant
            n == request.messages@.len(),
            multi_verify_lengths_ok(request),
            multi_verify_shape_ok(request),
            challenge == spec_multi_challenge(request),
            pks@.len() == n,
            forall|t: int| 0 <= t < n ==> #[trigger] pks@[t] == credential_key(request, t),
            j <= n,
            forall|t: int|
                0 <= t < j ==> #[trigger] proof_accepts(
                    request.proof@[t].proof,
                    credential_key(request, t),
                    request.proof@[t].revealed@,
                    hashed_messages(request.messages@[t]@),
                    spec_multi_challenge(request),
                ),
        decreases n - j,
    {
        let entry = &request.proof[j];
        let hashed = hash_attributes(&request.messages[j]);
        match check_credential_proof(&entry.proof, &pks[j], &entry.revealed, &hashed, &challenge) {
            Ok(_) => {}
            Err(e) => {
                proof {
                    assert(!proof_accepts(
                        request.proof@[j as int].proof,
                        credential_key(request, j as int),
                        request.proof@[j as int].revealed@,
                        hashed_messages(request.messages@[j as int]@),
                        spec_multi_challenge(request),
                    ));
                }
                return BbsVerifyResponse { verified: false, error: Some(e) };
            }
        }
        j = j + 1;
    }
    BbsVerifyResponse { verified: true, error: None }
}

} // verus!
