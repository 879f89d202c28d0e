use bbs_signatures::challenge::aggregate_challenge;

#[test]
fn challenge_is_deterministic() {
    let transcripts = vec![vec![1u8, 2, 3], vec![4u8, 5]];
    let a = aggregate_challenge(&transcripts, &vec![]);
    let b = aggregate_challenge(&transcripts, &vec![]);
    assert_eq!(a, b);
    let with_nonce_a = aggregate_challenge(&transcripts, &vec![9u8]);
    let with_nonce_b = aggregate_challenge(&transcripts, &vec![9u8]);
    assert_eq!(with_nonce_a, with_nonce_b);
}

#[test]
fn challenge_varies_with_nonce() {
    let transcripts = vec![vec![1u8, 2, 3]];
    let empty = aggregate_challenge(&transcripts, &vec![]);
    let nine = aggregate_challenge(&transcripts, &vec![9u8]);
    let ten = aggregate_challenge(&transcripts, &vec![10u8]);
    assert_ne!(empty, nine);
    assert_ne!(nine, ten);
}

#[test]
fn challenge_varies_with_transcript_order() {
    let ab = aggregate_challenge(&vec![vec![1u8], vec![2u8]], &vec![]);
    let ba = aggregate_challenge(&vec![vec![2u8], vec![1u8]], &vec![]);
    assert_ne!(ab, ba);
}
