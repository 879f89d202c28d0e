//! BBS+ selective-disclosure proof composition.
//!
//! A holder of BBS+ credentials proves possession of signatures over sets of
//! attributes while revealing only a chosen subset.  Several independently
//! issued credentials can be presented together: their commitments are bound
//! under a single Fiat-Shamir challenge, and hidden attributes from different
//! credentials can be proven equal through shared blinding values, without
//! disclosing them.
//!
//! The pairing arithmetic and the raw BBS+ primitive (`bbs` together with
//! `pairing-plus`) are consumed through the narrow trusted interface in
//! [`primitives`]; everything layered on top of it — attribute encoding,
//! equivalence resolution, challenge aggregation, bundle construction and the
//! verification engine — is verified.

pub mod challenge;
pub mod encoding;
pub mod errors;
pub mod keys;
pub mod primitives;
pub mod proving;
pub mod verifying;
