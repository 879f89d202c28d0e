//! The proving side: commitment building, challenge binding and response
//! finishing.
//!
//! One presentation covers one or more credentials.  Every credential's
//! commitment is built independently; all commitments are then bound under a
//! single Fiat-Shamir challenge, and every response is finished with that
//! same challenge, which is what makes the per-credential proofs inseparable
//! from the presentation they were built for.

use vstd::prelude::*;

use crate::challenge::aggregate_challenge;
use crate::encoding::{
    build_proof_messages, classify_messages, disclosed_indices, hashed_messages, spec_disclosed,
};
use crate::errors::BbsError;
use crate::primitives::{
    commitment_bytes, derive_key, derived_public_key, finish_commitment, fresh_blinding,
    init_commitment, message_of, pm_value_of, sig_accepts,
};
use bbs::keys::DeterministicPublicKey;
use bbs::messages::ProofMessage;
use bbs::pok_sig::{PoKOfSignature, PoKOfSignatureProof};
use bbs::signature::Signature;
use bbs::ProofNonce;

verus! {

/// One credential's entry in a presentation bundle: the indices the
/// presentation discloses, the credential's attribute count (so the verifier
/// can rebuild the same index space), and the proof itself.
#[derive(Clone)]
pub struct CredentialProof {
    /// How many attributes the credential covers.
    pub message_count: usize,
    /// The disclosed indices, in increasing order.
    pub revealed: Vec<usize>,
    /// The finished per-credential proof.
    pub proof: PoKOfSignatureProof,
}

/// A request to present a single credential.
pub struct BlsCreateProofRequest {
    /// The BBS+ signature over the attributes.
    pub signature: Signature,
    /// The issuer's key commitment.
    pub public_key: DeterministicPublicKey,
    /// The raw attribute values, in signing order.
    pub messages: Vec<Vec<u8>>,
    /// The indices to disclose.
    pub revealed: Vec<usize>,
    /// The presentation nonce; may be empty.
    pub nonce: Vec<u8>,
}

/// A request to present several credentials together, optionally linked by
/// equivalence classes of attribute positions.
pub struct BlsCreateProofMultiRequest {
    /// One signature per credential.
    pub signature: Vec<Signature>,
    /// One issuer key commitment per credential.
    pub public_key: Vec<DeterministicPublicKey>,
    /// Per credential, the raw attribute values in signing order.
    pub messages: Vec<Vec<Vec<u8>>>,
    /// Per credential, the indices to disclose.
    pub revealed: Vec<Vec<usize>>,
    /// The presentation nonce; may be empty.
    pub nonce: Vec<u8>,
    /// Groups of `(credential index, attribute index)` pairs asserted to hold
    /// the same value; each group shares one fresh blinding.
    pub equivs: Vec<Vec<(usize, usize)>>,
}

/// Every revealed index lies below the attribute count.
pub open spec fn all_revealed_in_bounds(revealed: Seq<usize>, count: int) -> bool {
    forall|k: int| 0 <= k < revealed.len() ==> (#[trigger] revealed[k] as int) < count
}

fn any_revealed_out_of_bounds(revealed: &Vec<usize>, count: usize) -> (b: bool)
    ensures
        b == !all_revealed_in_bounds(revealed@, count as int),
{
    let n = revealed.len();
    let mut i: usize = 0;
    while i < n
        invariant
            n == revealed@.len(),
            i <= n,
            forall|j: int| 0 <= j < i ==> (#[trigger] revealed@[j] as int) < count,
        decreases n - i,
    {
        if revealed[i] >= count {
            return true;
        }
        i = i + 1;
    }
    false
}

/// The per-credential input lists of a multi-credential request agree in
/// length.
pub open spec fn multi_lengths_ok(req: BlsCreateProofMultiRequest) -> bool {
    &&& req.signature@.len() == req.messages@.len()
    &&& req.revealed@.len() == req.messages@.len()
    &&& req.public_key@.len() == req.messages@.len()
}

/// Every credential's revealed indices lie below its attribute count.
pub open spec fn multi_revealed_in_bounds(req: BlsCreateProofMultiRequest) -> bool {
    forall|i: int|
        0 <= i < req.messages@.len() ==> #[trigger] all_revealed_in_bounds(
            req.revealed@[i]@,
            req.messages@[i]@.len() as int,
        )
}

/// Every credential carries at least one attribute.
pub open spec fn multi_counts_positive(req: BlsCreateProofMultiRequest) -> bool {
    forall|i: int| 0 <= i < req.messages@.len() ==> (#[trigger] req.messages@[i]@).len() > 0
}

/// Every credential's signature verifies over its hashed attributes under
/// the key derived for its attribute count.
pub open spec fn multi_credentials_consistent(req: BlsCreateProofMultiRequest) -> bool {
    forall|i: int|
        0 <= i < req.messages@.len() ==> #[trigger] sig_accepts(
            req.signature@[i],
            derived_public_key(req.public_key@[i], req.messages@[i]@.len() as usize),
            hashed_messages(req.messages@[i]@),
        )
}

/// Builds a selective-disclosure proof for one credential.
///
/// The revealed indices must lie inside `[0, N)` for the credential's `N`
/// attributes; an empty attribute list cannot yield a key and is rejected;
/// the signature must verify over the hashed attributes.  When all of that
/// holds a proof is produced, and the bundle entry carries the attribute
/// count and the disclosed indices in increasing order.
pub fn bls_create_proof(request: BlsCreateProofRequest) -> (r: Result<CredentialProof, BbsError>)
    ensures
        (r matches Err(BbsError::RevealedIndexOutOfBounds)) <==> !all_revealed_in_bounds(
            request.revealed@,
            request.messages@.len() as int,
        ),
        (all_revealed_in_bounds(request.revealed@, request.messages@.len() as int)
            && request.messages@.len() == 0) ==> r matches Err(BbsError::InvalidKey),
        (all_revealed_in_bounds(request.revealed@, request.messages@.len() as int)
            && request.messages@.len() > 0) ==> ((r matches Err(BbsError::ProofInitError(_)))
            <==> !sig_accepts(
            request.signature,
            derived_public_key(request.public_key, request.messages@.len() as usize),
            hashed_messages(request.messages@),
        )),
        r matches Ok(bundle) ==> {
            &&& request.messages@.len() > 0
            &&& bundle.message_count == request.messages@.len()
            &&& bundle.revealed@ == spec_disclosed(
                request.messages@.len() as nat,
                request.revealed@,
                Seq::<Vec<(usize, usize)>>::empty(),
                0,
            )
            &&& sig_accepts(
                request.signature,
                derived_public_key(request.public_key, request.messages@.len() as usize),
                hashed_messages(request.messages@),
            )
        },
        (all_revealed_in_bounds(request.revealed@, request.messages@.len() as int)
            && request.messages@.len() > 0 && sig_accepts(
            request.signature,
            derived_public_key(request.public_key, request.messages@.len() as usize),
            hashed_messages(request.messages@),
        )) ==> r is Ok,
{
    let n = request.messages.len();
    if any_revealed_out_of_bounds(&request.revealed, n) {
        return Err(BbsError::RevealedIndexOutOfBounds);
    }
    let pk = match derive_key(&request.public_key, n) {
        Ok(pk) => pk,
        Err(_) => {
            return Err(BbsError::InvalidKey);
        }
    };
    let equivs: Vec<Vec<(usize, usize)>> = Vec::new();
    let blindings: Vec<ProofNonce> = Vec::new();
    let classes = classify_messages(n, &request.revealed, &equivs, 0);
    let disclosed = disclosed_indices(n, &request.revealed, &equivs, 0);
    let pms = build_proof_messages(&request.messages, &classes, &blindings);
    proof {
        let mapped = pms@.map_values(|m: ProofMessage| pm_value_of(m));
        assert forall|j: int| 0 <= j < mapped.len() implies mapped[j] == hashed_messages(
            request.messages@,
        )[j] by {
            assert(pm_value_of(pms@[j]) == message_of(request.messages@[j]@));
        }
        assert(mapped =~= hashed_messages(request.messages@));
        assert(equivs@ =~= Seq::<Vec<(usize, usize)>>::empty());
    }
    let pok = match init_commitment(&request.signature, &pk, &pms) {
        Ok(p) => p,
        Err(e) => {
            return Err(BbsError::ProofInitError(e));
        }
    };
    let mut transcripts: Vec<Vec<u8>> = Vec::new();
    transcripts.push(commitment_bytes(&pok));
    let challenge = aggregate_challenge(&transcripts, &request.nonce);
    match finish_commitment(pok, &challenge) {
        Ok(proof_value) => Ok(
            CredentialProof { message_count: n, revealed: disclosed, proof: proof_value },
        ),
        Err(e) => Err(BbsError::ProofFinishError(e)),
    }
}

/// Builds one presentation over several credentials.
///
/// Per equivalence group one fresh blinding is drawn and shared by every
/// member, hiding the linked attributes while committing them to the same
/// value.  All commitments are bound under one challenge; every entry of the
/// bundle carries its credential's attribute count and the indices the
/// presentation actually discloses (the requested ones minus the linked
/// ones), in increasing order.
pub fn bls_create_proof_multi(request: BlsCreateProofMultiRequest) -> (r: Result<
    Vec<CredentialProof>,
    BbsError,
>)
    ensures
        (r matches Err(BbsError::InputLengthMismatch)) <==> !multi_lengths_ok(request),
        r matches Err(BbsError::RevealedIndexOutOfBounds) ==> !multi_revealed_in_bounds(request),
        r matches Err(BbsError::InvalidKey) ==> !multi_counts_positive(request),
        r matches Err(BbsError::ProofInitError(_)) ==> !multi_credentials_consistent(request),
        r matches Ok(bundle) ==> {
            &&& multi_lengths_ok(request)
            &&& multi_revealed_in_bounds(request)
            &&& multi_counts_positive(request)
            &&& multi_credentials_consistent(request)
            &&& bundle@.len() == request.messages@.len()
            &&& forall|i: int|
                0 <= i < bundle@.len() ==> (#[trigger] bundle@[i]).message_count
                    == request.messages@[i]@.len()
            &&& forall|i: int|
                0 <= i < bundle@.len() ==> (#[trigger] bundle@[i]).revealed@ == spec_disclosed(
                    request.messages@[i]@.len() as nat,
                    request.revealed@[i]@,
                    request.equivs@,
                    i as usize,
                )
        },
        r matches Err(BbsError::ProofFinishError(_)) ==> (multi_lengths_ok(request)
            && multi_revealed_in_bounds(request) && multi_counts_positive(request)
            && multi_credentials_consistent(request)),
        (multi_lengths_ok(request) && multi_revealed_in_bounds(request) && multi_counts_positive(
            request,
        ) && multi_credentials_consistent(request)) ==> r is Ok,
{
    let n = request.messages.len();
    if request.signature.len() != n || request.revealed.len() != n || request.public_key.len()
        != n {
        return Err(BbsError::InputLengthMismatch);
    }
    let mut blindings: Vec<ProofNonce> = Vec::new();
    let eq_count = request.equivs.len();
    let mut b: usize = 0;
    while b < eq_count
        invariant
            b <= eq_count,
            blindings@.len() == b,
        decreases eq_count - b,
    {
        blindings.push(fresh_blinding());
        b = b + 1;
    }
    let mut poks: Vec<PoKOfSignature> = Vec::new();
    let mut transcripts: Vec<Vec<u8>> = Vec::new();
    let mut counts: Vec<usize> = Vec::new();
    let mut discloseds: Vec<Vec<usize>> = Vec::new();
    let mut i: usize = 0;
    while i < n
        invariant
            n == request.messages@.len(),
            multi_lengths_ok(request),
            blindings@.len() == request.equivs@.len(),
            i <= n,
            poks@.len() == i,
            transcripts@.len() == i,
            counts@.len() == i,
            discloseds@.len() == i,
            forall|t: int| 0 <= t < i ==> #[trigger] counts@[t] == request.messages@[t]@.len(),
            forall|t: int|
                0 <= t < i ==> (#[trigger] discloseds@[t])@ == spec_disclosed(
                    request.messages@[t]@.len() as nat,
                    request.revealed@[t]@,
                    request.equivs@,
                    t as usize,
                ),
            forall|t: int|
                0 <= t < i ==> #[trigger] all_revealed_in_bounds(
                    request.revealed@[t]@,
                    request.messages@[t]@.len() as int,
                ),
            forall|t: int| 0 <= t < i ==> (#[trigger] request.messages@[t]@).len() > 0,
            forall|t: int|
                0 <= t < i ==> #[trigger] sig_accepts(
                    request.signature@[t],
                    derived_public_key(
                        request.public_key@[t],
                        request.messages@[t]@.len() as usize,
                    ),
                    hashed_messages(request.messages@[t]@),
                ),
        decreases n - i,
    {
        let vals = &request.messages[i];
        let cnt = vals.len();
        if any_revealed_out_of_bounds(&request.revealed[i], cnt) {
            return Err(BbsError::RevealedIndexOutOfBounds);
        }
        let pk = match derive_key(&request.public_key[i], cnt) {
            Ok(pk) => pk,
            Err(_) => {
                return Err(BbsError::InvalidKey);
            }
        };
        let classes = classify_messages(cnt, &request.revealed[i], &request.equivs, i);
        let pms = build_proof_messages(vals, &classes, &blindings);
        proof {
            let mapped = pms@.map_values(|m: ProofMessage| pm_value_of(m));
            assert forall|j: int| 0 <= j < mapped.len() implies mapped[j] == hashed_messages(
                request.messages@[i as int]@,
            )[j] by {
                assert(pm_value_of(pms@[j]) == message_of(request.messages@[i as int]@[j]@));
            }
            assert(mapped =~= hashed_messages(request.messages@[i as int]@));
        }
        let pok = match init_commitment(&request.signature[i], &pk, &pms) {
            Ok(p) => p,
            Err(e) => {
                proof {
                    assert(!sig_accepts(
                        request.signature@[i as int],
                        derived_public_key(
                            request.public_key@[i as int],
                            request.messages@[i as int]@.len() as usize,
                        ),
                        hashed_messages(request.messages@[i as int]@),
                    ));
                }
                return Err(BbsError::ProofInitError(e));
            }
        };
        transcripts.push(commitment_bytes(&pok));
        poks.push(pok);
        counts.push(cnt);
        discloseds.push(disclosed_indices(cnt, &request.revealed[i], &request.equivs, i));
        i = i + 1;
    }
    let challenge = aggregate_challenge(&transcripts, &request.nonce);
    let ghost all_disclosed = discloseds@;
    let mut bundle: Vec<CredentialProof> = Vec::new();
    let mut j: usize = 0;
    while j < n
        invariant
            n == request.messages@.len(),
            multi_lengths_ok(request),
            multi_revealed_in_bounds(request),
            multi_counts_positive(request),
            multi_credentials_consistent(request),
            j <= n,
            poks@.len() == n - j,
            discloseds@ == all_disclosed.skip(j as int),
            all_disclosed.len() == n,
            counts@.len() == n,
            forall|t: int| 0 <= t < n ==> #[trigger] counts@[t] == request.messages@[t]@.len(),
            forall|t: int|
                0 <= t < n ==> (#[trigger] all_disclosed[t])@ == spec_disclosed(
                    request.messages@[t]@.len() as nat,
                    request.revealed@[t]@,
                    request.equivs@,
                    t as usize,
                ),
            bundle@.len() == j,
            forall|t: int|
                0 <= t < j ==> (#[trigger] bundle@[t]).message_count
                    == request.messages@[t]@.len(),
            forall|t: int|
                0 <= t < j ==> (#[trigger] bundle@[t]).revealed@ == spec_disclosed(
                    request.messages@[t]@.len() as nat,
                    request.revealed@[t]@,
                    request.equivs@,
                    t as usize,
                ),
        decreases n - j,
    {
        let pok = poks.remove(0);
        let disclosed = discloseds.remove(0);
        proof {
            assert(all_disclosed.skip(j as int)[0] == all_disclosed[j as int]);
            assert(all_disclosed.skip(j as int).remove(0) =~= all_disclosed.skip(j + 1));
        }
        match finish_commitment(pok, &challenge) {
            Ok(proof_value) => {
                bundle.push(
                    CredentialProof {
                        message_count: counts[j],
                        revealed: disclosed,
                        proof: proof_value,
                    },
                );
            }
            Err(e) => {
                return Err(BbsError::ProofFinishError(e));
            }
        }
        j = j + 1;
    }
    Ok(bundle)
}

} // verus!
