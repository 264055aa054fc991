//! The local actor document: this node's own federation-compliant
//! representation of a user.
//!
//! The document is a pure projection of the user aggregate and its
//! signing key pair; it owns no state and is rebuilt on demand. Its
//! timestamp is rendered in the fixed `YYYY-MM-DD HH:MM:SS` UTC wire
//! format that peer implementations parse literally.

use vstd::prelude::*;
use vstd::string::StringExecFns;

use crate::actor::{ActorProfile, PublicKey, RemoteActor};
use crate::clock::{format_wire_timestamp, wire_timestamp, MAX_RENDERED_UNIX_SECS};
use crate::keys::SigningKeyPair;
use crate::text::concat2;
use crate::trust::owner_matches;

verus! {

/// Failure of building the local actor document.
#[derive(Clone, Debug, PartialEq, Eq)]
pub enum BuildError {
    /// The user owns no signing key pair. Every local account must have
    /// one provisioned before it can act in the federation.
    NoSigningKey,
}

/// An image reference of an actor document.
#[derive(Debug, PartialEq, Eq)]
pub struct Image {
    pub kind: String,
    pub media_type: String,
    pub url: String,
}

/// The user aggregate the document is projected from. The URLs are the
/// stored canonical values, already fully qualified; the builder does not
/// synthesize them. `published` is the account's creation time in Unix
/// seconds.
#[derive(Debug, PartialEq, Eq)]
pub struct User {
    pub federation_id: String,
    pub name: String,
    pub display_name: String,
    pub summary: Option<String>,
    pub url: String,
    pub inbox: String,
    pub outbox: String,
    pub followers: String,
    pub following: String,
    pub featured: String,
    pub featured_tags: String,
    pub icon_location: String,
    pub image_location: String,
    pub manually_approves_followers: bool,
    pub discoverable: bool,
    pub indexable: bool,
    pub published: i64,
}

impl User {
    /// A well-formed user: its creation time lies in the range the wire
    /// format can render.
    pub open spec fn wf(&self) -> bool {
        0 <= self.published <= MAX_RENDERED_UNIX_SECS
    }
}

/// This node's actor document for one local user, in the shape the
/// federation expects.
#[derive(Debug, PartialEq, Eq)]
pub struct PersonActor {
    pub context: Vec<String>,
    pub id: String,
    pub kind: String,
    pub following: String,
    pub followers: String,
    pub inbox: String,
    pub outbox: String,
    pub featured: String,
    pub featured_tags: String,
    pub preferred_username: String,
    pub name: String,
    pub summary: Option<String>,
    pub url: String,
    pub manually_approves_followers: bool,
    pub discoverable: bool,
    pub indexable: bool,
    pub published: String,
    pub memorial: Option<bool>,
    pub devices: Option<String>,
    pub public_key: PublicKey,
    pub icon: Image,
    pub image: Image,
}

/// What the built document must hold, field by field: the user's stored
/// values, a `Person` type under the two standard context URLs, the wire
/// rendering of the creation time, and a key block owned by the user's
/// own federation id.
pub open spec fn person_actor_built(u: User, key_pem: Seq<char>, d: PersonActor) -> bool {
    &&& d.context.deep_view() =~= seq![
        "https://www.w3.org/ns/activitystreams"@,
        "https://w3id.org/security/v1"@,
    ]
    &&& d.id@ == u.federation_id@
    &&& d.kind@ == "Person"@
    &&& d.following@ == u.following@
    &&& d.followers@ == u.followers@
    &&& d.inbox@ == u.inbox@
    &&& d.outbox@ == u.outbox@
    &&& d.featured@ == u.featured@
    &&& d.featured_tags@ == u.featured_tags@
    &&& d.preferred_username@ == u.display_name@
    &&& d.name@ == u.name@
    &&& d.summary.deep_view() == u.summary.deep_view()
    &&& d.url@ == u.url@
    &&& d.manually_approves_followers == u.manually_approves_followers
    &&& d.discoverable == u.discoverable
    &&& d.indexable == u.indexable
    &&& d.published@ == wire_timestamp(u.published as int)
    &&& d.memorial == Some(false)
    &&& d.devices is None
    &&& d.public_key.id@ == u.federation_id@ + "#main-key"@
    &&& d.public_key.owner@ == u.federation_id@
    &&& d.public_key.public_key_pem@ == key_pem
    &&& d.icon.kind@ == "Image"@ && d.icon.media_type@ == "image/jpeg"@ && d.icon.url@
        == u.icon_location@
    &&& d.image.kind@ == "Image"@ && d.image.media_type@ == "image/jpeg"@ && d.image.url@
        == u.image_location@
}

impl PersonActor {
    /// The key block of the document: the key is published under the id
    /// `{federationId}#main-key` and owned by the federation id itself.
    pub fn get_public_key(u: &User, key: &SigningKeyPair) -> (r: PublicKey)
        ensures
            r.id@ == u.federation_id@ + "#main-key"@,
            r.owner@ == u.federation_id@,
            r.public_key_pem@ == key.public_key_pem@,
    {
        PublicKey {
            id: concat2(u.federation_id.as_str(), "#main-key"),
            owner: u.federation_id.clone(),
            public_key_pem: key.public_key_pem.clone(),
        }
    }

    /// Builds the actor document for a local user from its stored values
    /// and the signing key pair the store handed back; `NoSigningKey`
    /// when the user has none provisioned.
    pub fn create(u: &User, key: Option<&SigningKeyPair>) -> (r: Result<PersonActor, BuildError>)
        requires
            u.wf(),
        ensures
            match key {
                None => r matches Err(BuildError::NoSigningKey),
                Some(k) => r matches Ok(d) && person_actor_built(*u, k.public_key_pem@, d),
            },
    {
        let key = match key {
            Some(k) => k,
            None => return Err(BuildError::NoSigningKey),
        };
        let published = match format_wire_timestamp(u.published) {
            Some(p) => p,
            None => {
                proof {
                    assert(false);
                }
                String::new()
            },
        };
        let mut context: Vec<String> = Vec::new();
        context.push("https://www.w3.org/ns/activitystreams".to_owned());
        context.push("https://w3id.org/security/v1".to_owned());
        let pk = Self::get_public_key(u, key);
        let icon = Image {
            kind: "Image".to_owned(),
            media_type: "image/jpeg".to_owned(),
            url: u.icon_location.clone(),
        };
        let image = Image {
            kind: "Image".to_owned(),
            media_type: "image/jpeg".to_owned(),
            url: u.image_location.clone(),
        };
        let summary = match &u.summary {
            Some(s) => Some(s.clone()),
            None => None,
        };
        Ok(
            PersonActor {
                context,
                id: u.federation_id.clone(),
                kind: "Person".to_owned(),
                following: u.following.clone(),
                followers: u.followers.clone(),
                inbox: u.inbox.clone(),
                outbox: u.outbox.clone(),
                featured: u.featured.clone(),
                featured_tags: u.featured_tags.clone(),
                preferred_username: u.display_name.clone(),
                name: u.name.clone(),
                summary,
                url: u.url.clone(),
                manually_approves_followers: u.manually_approves_followers,
                discoverable: u.discoverable,
                indexable: u.indexable,
                published,
                memorial: Some(false),
                devices: None,
                public_key: pk,
                icon,
                image,
            },
        )
    }

    /// The document as a peer sees it after fetching: the profile under
    /// the document's own id, together with its key block.
    pub fn to_remote_actor(&self) -> (r: RemoteActor)
        ensures
            r.profile.actor_url@ == self.id@,
            r.profile.kind@ == self.kind@,
            r.profile.inbox_url@ == self.inbox@,
            r.profile.outbox_url@ == self.outbox@,
            r.profile.followers_url@ == self.followers@,
            r.profile.following_url@ == self.following@,
            r.profile.display_name@ == self.name@,
            r.profile.preferred_username@ == self.preferred_username@,
            r.profile.published@ == self.published@,
            r.public_key.id@ == self.public_key.id@,
            r.public_key.owner@ == self.public_key.owner@,
            r.public_key.public_key_pem@ == self.public_key.public_key_pem@,
    {
        RemoteActor {
            profile: ActorProfile {
                actor_url: self.id.clone(),
                kind: self.kind.clone(),
                inbox_url: self.inbox.clone(),
                outbox_url: self.outbox.clone(),
                followers_url: self.followers.clone(),
                following_url: self.following.clone(),
                display_name: self.name.clone(),
                preferred_username: self.preferred_username.clone(),
                published: self.published.clone(),
            },
            public_key: PublicKey {
                id: self.public_key.id.clone(),
                owner: self.public_key.owner.clone(),
                public_key_pem: self.public_key.public_key_pem.clone(),
            },
        }
    }
}

/// Builds the actor document for a local user; see `PersonActor::create`.
pub fn build_actor_document(user: &User, key: Option<&SigningKeyPair>) -> (r: Result<
    PersonActor,
    BuildError,
>)
    requires
        user.wf(),
    ensures
        match key {
            None => r matches Err(BuildError::NoSigningKey),
            Some(k) => r matches Ok(d) && person_actor_built(*user, k.public_key_pem@, d),
        },
{
    PersonActor::create(user, key)
}

/// A node trusts its own documents under the rule it applies to remote
/// ones: the key block of a freshly built local document, read back the
/// way a peer reads a fetched actor, passes the ownership check against
/// the user's federation id, and the key it carries is the user's public
/// key.
pub proof fn lemma_local_document_trusted(
    u: User,
    key: SigningKeyPair,
    d: PersonActor,
    a: RemoteActor,
)
    requires
        person_actor_built(u, key.public_key_pem@, d),
        a.public_key.owner@ == d.public_key.owner@,
        a.public_key.public_key_pem@ == d.public_key.public_key_pem@,
    ensures
        owner_matches(u.federation_id@, a.deep_view()),
        a.public_key.public_key_pem@ == key.public_key_pem@,
{
}

} // verus!
