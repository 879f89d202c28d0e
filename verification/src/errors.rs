use vstd::prelude::*;

verus! {

broadcast use vstd::string::to_string_from_display_ensures_for_str;

/// Failures reported by the proving-side operations.  Verification-side
/// operations never fail with an error value; they collapse every failure
/// into a [`BbsVerifyResponse`] with `verified == false`.
#[derive(Debug)]
pub enum BbsError {
    /// A BBS+ public key could not be derived from the supplied key material
    /// (missing or short key bytes, or a message count of zero).
    InvalidKey,
    /// Neither a public key nor a secret key was supplied.
    MissingKey,
    /// Signing was requested but no secret key was supplied.
    MissingSecretKey,
    /// A revealed index is not smaller than the credential's attribute count.
    RevealedIndexOutOfBounds,
    /// Parallel per-credential inputs disagree in length.
    InputLengthMismatch,
    /// The commitment primitive rejected the signature and message list.
    ProofInitError(String),
    /// The response primitive failed while finishing a commitment.
    ProofFinishError(String),
    /// The signature primitive rejected its inputs.
    SigningError(String),
}

/// The description text of each failure.
pub open spec fn spec_message(e: BbsError) -> Seq<char> {
    match e {
        BbsError::InvalidKey => "Failed to convert key"@,
        BbsError::MissingKey => "No key is specified"@,
        BbsError::MissingSecretKey => "Failed to sign"@,
        BbsError::RevealedIndexOutOfBounds => "revealed value is out of bounds"@,
        BbsError::InputLengthMismatch => (
        "numbers of messages, signature, revealed, and publicKey must be the same")@,
        BbsError::ProofInitError(s) => s@,
        BbsError::ProofFinishError(s) => s@,
        BbsError::SigningError(s) => s@,
    }
}

impl BbsError {
    /// A human-readable description of the failure.
    pub fn message(&self) -> (r: String)
        ensures
            r@ == spec_message(*self),
    {
        match self {
            BbsError::InvalidKey => "Failed to convert key".to_string(),
            BbsError::MissingKey => "No key is specified".to_string(),
            BbsError::MissingSecretKey => "Failed to sign".to_string(),
            BbsError::RevealedIndexOutOfBounds => "revealed value is out of bounds".to_string(),
            BbsError::InputLengthMismatch => {
                "numbers of messages, signature, revealed, and publicKey must be the same"
                    .to_string()
            }
            BbsError::ProofInitError(s) => s.clone(),
            BbsError::ProofFinishError(s) => s.clone(),
            BbsError::SigningError(s) => s.clone(),
        }
    }
}

/// The uniform result of every verification-side operation.
pub struct BbsVerifyResponse {
    /// Whether every requested check succeeded.
    pub verified: bool,
    /// A description of the first failure, when one occurred.
    pub error: Option<String>,
}

} // verus!
