//! The key trust validator: the ownership invariant that authenticates
//! federation traffic.
//!
//! A public key taken from a fetched actor document may be trusted only if
//! the key's declared `owner` equals, byte for byte, the actor URL that
//! was dereferenced to obtain the document. Any difference — a trailing
//! slash, another scheme, different case — is a rejection: this equality
//! is the sole defense against a peer serving someone else's key, and it
//! is never relaxed by normalization.

use vstd::prelude::*;

use crate::actor::{RemoteActor, RemoteActorV};
use crate::clock::now_unix;
use crate::text::str_eq;

verus! {

/// Rejection of a fetched public key.
#[derive(Clone, Debug, PartialEq, Eq)]
pub enum TrustError {
    /// The key's declared owner is not the URL the document was fetched
    /// from. Never downgraded or recovered: a mismatched key is forged
    /// until proven otherwise.
    OwnerMismatch { expected: String, actual: String },
}

/// A key that passed the ownership check, bound to the URL it was fetched
/// from and the moment of validation.
#[derive(Debug, PartialEq, Eq)]
pub struct TrustedKeyRecord {
    pub actor_url: String,
    pub public_key_pem: String,
    pub verified_at: i64,
}

/// The ownership invariant: the key's declared owner is exactly the URL
/// that was dereferenced.
pub open spec fn owner_matches(requested_url: Seq<char>, actor: RemoteActorV) -> bool {
    actor.public_key.owner == requested_url
}

/// Checks the ownership invariant and, when it holds, seals the key into
/// a `TrustedKeyRecord` stamped with the current time.
///
/// Succeeds exactly when `actor.public_key.owner` equals `requested_url`
/// byte for byte; otherwise reports the mismatch, naming both sides.
pub fn validate_key_ownership(requested_url: &str, actor: &RemoteActor) -> (r: Result<
    TrustedKeyRecord,
    TrustError,
>)
    ensures
        owner_matches(requested_url@, actor.deep_view()) ==> (r matches Ok(t)
            && t.actor_url@ == requested_url@ && t.public_key_pem@
            == actor.public_key.public_key_pem@),
        !owner_matches(requested_url@, actor.deep_view()) ==> (r matches Err(
            TrustError::OwnerMismatch { expected, actual },
        ) && expected@ == requested_url@ && actual@ == actor.public_key.owner@),
{
    if str_eq(actor.public_key.owner.as_str(), requested_url) {
        Ok(
            TrustedKeyRecord {
                actor_url: requested_url.to_owned(),
                public_key_pem: actor.public_key.public_key_pem.clone(),
                verified_at: now_unix(),
            },
        )
    } else {
        Err(
            TrustError::OwnerMismatch {
                expected: requested_url.to_owned(),
                actual: actor.public_key.owner.clone(),
            },
        )
    }
}

} // verus!
