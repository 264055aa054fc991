//! Remote actor documents: the JSON representation a peer serves for an
//! identity, and the parsing of a fetch response into it.
//!
//! The caller performs the HTTPS GET; this module turns the response into
//! a `RemoteActor` or a typed failure. A non-success status is reported as
//! such without reading the body. Decoding the JSON body is delegated to
//! serde_json behind two trusted wrappers whose results are named.

use vstd::prelude::*;

verus! {

/// Failure of a remote actor fetch.
#[derive(Clone, Debug, PartialEq, Eq)]
pub enum FetchError {
    /// The peer answered with a status other than 200.
    HttpStatus(u16),
    /// The body is not an actor document: not JSON, or a required field
    /// (`publicKey.owner`, `publicKey.publicKeyPem`, `inbox`) is missing.
    MalformedDocument,
    /// The transport failed before any response arrived.
    Network,
}

/// The public key block of an actor document.
#[derive(Debug, PartialEq, Eq)]
pub struct PublicKey {
    pub id: String,
    pub owner: String,
    pub public_key_pem: String,
}

/// The mathematical value of a `PublicKey`.
pub struct PublicKeyV {
    pub id: Seq<char>,
    pub owner: Seq<char>,
    pub public_key_pem: Seq<char>,
}

impl View for PublicKey {
    type V = PublicKeyV;

    open spec fn view(&self) -> PublicKeyV {
        PublicKeyV { id: self.id@, owner: self.owner@, public_key_pem: self.public_key_pem@ }
    }
}

impl DeepView for PublicKey {
    type V = PublicKeyV;

    open spec fn deep_view(&self) -> PublicKeyV {
        self.view()
    }
}

/// The profile part of an actor document: every string field except the
/// public key block. Optional fields are empty when the document omits
/// them; `inbox_url` is required.
#[derive(Debug, PartialEq, Eq)]
pub struct ActorProfile {
    pub actor_url: String,
    pub kind: String,
    pub inbox_url: String,
    pub outbox_url: String,
    pub followers_url: String,
    pub following_url: String,
    pub display_name: String,
    pub preferred_username: String,
    pub published: String,
}

/// The mathematical value of an `ActorProfile`.
pub struct ActorProfileV {
    pub actor_url: Seq<char>,
    pub kind: Seq<char>,
    pub inbox_url: Seq<char>,
    pub outbox_url: Seq<char>,
    pub followers_url: Seq<char>,
    pub following_url: Seq<char>,
    pub display_name: Seq<char>,
    pub preferred_username: Seq<char>,
    pub published: Seq<char>,
}

impl View for ActorProfile {
    type V = ActorProfileV;

    open spec fn view(&self) -> ActorProfileV {
        ActorProfileV {
            actor_url: self.actor_url@,
            kind: self.kind@,
            inbox_url: self.inbox_url@,
            outbox_url: self.outbox_url@,
            followers_url: self.followers_url@,
            following_url: self.following_url@,
            display_name: self.display_name@,
            preferred_username: self.preferred_username@,
            published: self.published@,
        }
    }
}

impl DeepView for ActorProfile {
    type V = ActorProfileV;

    open spec fn deep_view(&self) -> ActorProfileV {
        self.view()
    }
}

/// A fetched remote identity, assembled from the profile and key parts of
/// its actor document.
#[derive(Debug, PartialEq, Eq)]
pub struct RemoteActor {
    pub profile: ActorProfile,
    pub public_key: PublicKey,
}

/// The mathematical value of a `RemoteActor`.
pub struct RemoteActorV {
    pub profile: ActorProfileV,
    pub public_key: PublicKeyV,
}

impl View for RemoteActor {
    type V = RemoteActorV;

    open spec fn view(&self) -> RemoteActorV {
        RemoteActorV { profile: self.profile@, public_key: self.public_key@ }
    }
}

impl DeepView for RemoteActor {
    type V = RemoteActorV;

    open spec fn deep_view(&self) -> RemoteActorV {
        self.view()
    }
}

/// The profile fields of the actor-document JSON: `id`, `type`, `inbox`,
/// `outbox`, `followers`, `following`, `name`, `preferredUsername` and
/// `published`, each empty when absent or not a string; `None` when the
/// body is not a JSON object or `inbox` is missing. Deserialization is a
/// function of the body text alone.
pub uninterp spec fn actor_profile_of(body: Seq<char>) -> Option<ActorProfileV>;

/// The `publicKey` block of the actor-document JSON: its `id` (empty when
/// absent), `owner` and `publicKeyPem`; `None` when the body is not a
/// JSON object or `publicKey`, `owner` or `publicKeyPem` is missing.
/// Deserialization is a function of the body text alone.
pub uninterp spec fn actor_public_key_of(body: Seq<char>) -> Option<PublicKeyV>;

/// Relies on `serde_json::from_str` and the `serde_json::Value` accessors
/// `get` and `as_str` to read the profile fields of the body; the result
/// is deterministic in the body text and is named by `actor_profile_of`.
#[verifier::external_body]
fn decode_actor_profile(body: &str) -> (r: Option<ActorProfile>)
    ensures
        match r {
            Some(p) => actor_profile_of(body@) == Some(p.deep_view()),
            None => actor_profile_of(body@) is None,
        },
{
    let v: serde_json::Value = serde_json::from_str(body).ok()?;
    let s = |k: &str| v.get(k).and_then(|x| x.as_str()).unwrap_or("").to_string();
    Some(ActorProfile {
        actor_url: s("id"),
        kind: s("type"),
        inbox_url: v.get("inbox").and_then(|x| x.as_str())?.to_string(),
        outbox_url: s("outbox"),
        followers_url: s("followers"),
        following_url: s("following"),
        display_name: s("name"),
        preferred_username: s("preferredUsername"),
        published: s("published"),
    })
}

/// Relies on `serde_json::from_str` and the `serde_json::Value` accessors
/// `get` and `as_str` to read the `publicKey` block of the body; the
/// result is deterministic in the body text and is named by
/// `actor_public_key_of`.
#[verifier::external_body]
fn decode_actor_public_key(body: &str) -> (r: Option<PublicKey>)
    ensures
        match r {
            Some(k) => actor_public_key_of(body@) == Some(k.deep_view()),
            None => actor_public_key_of(body@) is None,
        },
{
    let v: serde_json::Value = serde_json::from_str(body).ok()?;
    let pk = v.get("publicKey")?;
    Some(PublicKey {
        id: pk.get("id").and_then(|x| x.as_str()).unwrap_or("").to_string(),
        owner: pk.get("owner").and_then(|x| x.as_str())?.to_string(),
        public_key_pem: pk.get("publicKeyPem").and_then(|x| x.as_str())?.to_string(),
    })
}

/// The actor document carried by a response body, when both its profile
/// part and its key part are well formed.
pub open spec fn actor_document_of(body: Seq<char>) -> Option<RemoteActorV> {
    match (actor_profile_of(body), actor_public_key_of(body)) {
        (Some(p), Some(k)) => Some(RemoteActorV { profile: p, public_key: k }),
        _ => None,
    }
}

/// Parses the outcome of an actor fetch.
///
/// The caller hands in `Some((status, body))` when its HTTPS GET produced
/// a response, `None` when the transport failed. A status other than 200
/// is reported as `HttpStatus` without the body being read; a 200 body
/// that is not a well-formed actor document is `MalformedDocument`.
pub fn parse_actor_response(response: Option<(u16, &str)>) -> (r: Result<
    RemoteActor,
    FetchError,
>)
    ensures
        match response {
            None => r matches Err(FetchError::Network),
            Some((status, body)) => if status != 200 {
                r matches Err(FetchError::HttpStatus(c)) && c == status
            } else {
                match actor_document_of(body@) {
                    Some(a) => r matches Ok(actor) && actor.deep_view() == a,
                    None => r matches Err(FetchError::MalformedDocument),
                }
            },
        },
{
    let (status, body) = match response {
        Some(p) => p,
        None => return Err(FetchError::Network),
    };
    if status != 200 {
        return Err(FetchError::HttpStatus(status));
    }
    let profile = match decode_actor_profile(body) {
        Some(p) => p,
        None => return Err(FetchError::MalformedDocument),
    };
    let public_key = match decode_actor_public_key(body) {
        Some(k) => k,
        None => return Err(FetchError::MalformedDocument),
    };
    Ok(RemoteActor { profile, public_key })
}

} // verus!
