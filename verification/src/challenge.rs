//! The challenge aggregator.
//!
//! All per-credential commitment transcripts of one presentation are
//! concatenated in credential order and extended by a fixed-width nonce
//! block — the hash of the presentation nonce, or an all-zero block of the
//! same width when no nonce is supplied — and the result is hashed to the one
//! Fiat-Shamir challenge shared by every credential in the presentation.

use vstd::prelude::*;

use crate::primitives::{
    challenge_of, hash_challenge, hashed_nonce_block, nonce_block_of, FIELD_BYTES,
};
use bbs::ProofChallenge;

verus! {

/// The concatenation of a sequence of byte strings, in order.
pub open spec fn concat_all(ts: Seq<Seq<u8>>) -> Seq<u8>
    decreases ts.len(),
{
    if ts.len() == 0 {
        Seq::empty()
    } else {
        concat_all(ts.drop_last()) + ts.last()
    }
}

/// The fixed-width placeholder appended when no nonce is supplied.
pub open spec fn zero_block() -> Seq<u8> {
    Seq::new(FIELD_BYTES as nat, |i: int| 0u8)
}

/// The fixed-width block a nonce contributes to the transcript: the hash of
/// the nonce when one is supplied, the all-zero placeholder otherwise.  The
/// width never varies, so presentations with and without a nonce occupy the
/// same transcript positions.
pub open spec fn nonce_tail(nonce: Seq<u8>) -> Seq<u8> {
    if nonce.len() == 0 {
        zero_block()
    } else {
        nonce_block_of(nonce)
    }
}

/// The full challenge transcript of a presentation: every commitment
/// transcript in credential order, then the nonce block.
pub open spec fn presentation_transcript(transcripts: Seq<Seq<u8>>, nonce: Seq<u8>) -> Seq<u8> {
    concat_all(transcripts) + nonce_tail(nonce)
}

/// Appending one more byte string extends the concatenation on the right.
proof fn lemma_concat_all_step(ts: Seq<Seq<u8>>, i: int)
    requires
        0 <= i < ts.len(),
    ensures
        concat_all(ts.take(i + 1)) == concat_all(ts.take(i)) + ts[i],
{
    assert(ts.take(i + 1).drop_last() =~= ts.take(i));
    assert(ts.take(i + 1).last() == ts[i]);
}

/// Appends a copy of `src` to `dst`.
pub fn push_all(dst: &mut Vec<u8>, src: &Vec<u8>)
    ensures
        final(dst)@ == old(dst)@ + src@,
{
    let n = src.len();
    let mut i: usize = 0;
    while i < n
        invariant
            n == src@.len(),
            i <= n,
            dst@ == old(dst)@ + src@.take(i as int),
        decreases n - i,
    {
        dst.push(src[i]);
        assert(src@.take(i + 1) =~= src@.take(i as int).push(src@[i as int]));
        i = i + 1;
    }
    assert(src@.take(n as int) =~= src@);
}

/// Derives the one presentation challenge from the per-credential transcript
/// bytes and the presentation nonce.  This is a pure function of its inputs:
/// identical transcripts in identical order with an identical nonce always
/// yield the identical challenge.
pub fn aggregate_challenge(transcripts: &Vec<Vec<u8>>, nonce: &Vec<u8>) -> (c: ProofChallenge)
    ensures
        c == challenge_of(
            presentation_transcript(
                transcripts@.map_values(|t: Vec<u8>| t@),
                nonce@,
            ),
        ),
{
    let ghost tseq = transcripts@.map_values(|t: Vec<u8>| t@);
    let mut bytes: Vec<u8> = Vec::new();
    let n = transcripts.len();
    let mut i: usize = 0;
    while i < n
        invariant
            n == transcripts@.len(),
            tseq == transcripts@.map_values(|t: Vec<u8>| t@),
            i <= n,
            bytes@ == concat_all(tseq.take(i as int)),
        decreases n - i,
    {
        push_all(&mut bytes, &transcripts[i]);
        proof {
            lemma_concat_all_step(tseq, i as int);
        }
        i = i + 1;
    }
    assert(tseq.take(n as int) =~= tseq);
    if nonce.len() == 0 {
        let mut j: usize = 0;
        let ghost before = bytes@;
        while j < FIELD_BYTES
            invariant
                j <= FIELD_BYTES,
                bytes@ == before + zero_block().take(j as int),
            decreases FIELD_BYTES - j,
        {
            bytes.push(0u8);
            assert(zero_block().take(j + 1) =~= zero_block().take(j as int).push(0u8));
            j = j + 1;
        }
        assert(zero_block().take(FIELD_BYTES as int) =~= zero_block());
    } else {
        let block = hashed_nonce_block(nonce);
        push_all(&mut bytes, &block);
    }
    hash_challenge(&bytes)
}

/// Challenge determinism: the presentation transcript — and with it the
/// aggregated challenge — is a function of the transcript list and the nonce
/// alone, so two aggregations over equal inputs agree.
pub proof fn lemma_challenge_deterministic(
    transcripts_a: Seq<Seq<u8>>,
    nonce_a: Seq<u8>,
    transcripts_b: Seq<Seq<u8>>,
    nonce_b: Seq<u8>,
)
    requires
        transcripts_a == transcripts_b,
        nonce_a == nonce_b,
    ensures
        challenge_of(presentation_transcript(transcripts_a, nonce_a)) == challenge_of(
            presentation_transcript(transcripts_b, nonce_b),
        ),
{
}

} // verus!
