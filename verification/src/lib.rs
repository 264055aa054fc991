//! Federated identity resolution for an ActivityPub node.
//!
//! The crate covers the trust-critical core of federation: classifying an
//! incoming identifier string, discovering a canonical actor URL through
//! WebFinger, parsing a remote actor document, enforcing the key-ownership
//! invariant that authenticates inbound traffic, and building this node's
//! own actor document so that peers can run the same checks against it.
//! Network and database access live outside the crate; every function here
//! is a total computation over plain values, specified and verified.

pub mod actor;
pub mod clock;
pub mod entities;
pub mod http_response;
pub mod identifier;
pub mod keys;
pub mod person;
pub mod text;
pub mod token;
pub mod trust;
pub mod webfinger;

pub use actor::{parse_actor_response, FetchError, PublicKey, RemoteActor};
pub use identifier::{classify, Identification};
pub use person::{build_actor_document, BuildError, PersonActor, User};
pub use trust::{validate_key_ownership, TrustError, TrustedKeyRecord};
pub use webfinger::{resolve_webfinger, webfinger_url, DiscoveryError};
