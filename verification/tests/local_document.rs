use fedid::keys::SigningKeyPair;
use fedid::person::{build_actor_document, BuildError, PersonActor, User};
use fedid::trust::validate_key_ownership;

fn alice() -> User {
    User {
        federation_id: "https://example.com/users/alice".to_string(),
        name: "Alice Example".to_string(),
        display_name: "alice".to_string(),
        summary: Some("hello".to_string()),
        url: "https://example.com/@alice".to_string(),
        inbox: "https://example.com/users/alice/inbox".to_string(),
        outbox: "https://example.com/users/alice/outbox".to_string(),
        followers: "https://example.com/users/alice/followers".to_string(),
        following: "https://example.com/users/alice/following".to_string(),
        featured: "https://example.com/users/alice/collections/featured".to_string(),
        featured_tags: "https://example.com/users/alice/collections/tags".to_string(),
        icon_location: "https://example.com/media/alice-icon.jpg".to_string(),
        image_location: "https://example.com/media/alice-header.jpg".to_string(),
        manually_approves_followers: false,
        discoverable: true,
        indexable: false,
        published: 1431648000,
    }
}

fn alice_keys() -> SigningKeyPair {
    SigningKeyPair {
        user_id: 1,
        public_key_pem: "PUBLIC-PEM".to_string(),
        private_key_pem: "PRIVATE-PEM".to_string(),
    }
}

#[test]
fn document_projects_the_user_aggregate() {
    let user = alice();
    let keys = alice_keys();
    let doc = build_actor_document(&user, Some(&keys)).unwrap();
    assert_eq!(
        doc.context,
        vec![
            "https://www.w3.org/ns/activitystreams".to_string(),
            "https://w3id.org/security/v1".to_string(),
        ]
    );
    assert_eq!(doc.id, user.federation_id);
    assert_eq!(doc.kind, "Person");
    assert_eq!(doc.inbox, user.inbox);
    assert_eq!(doc.outbox, user.outbox);
    assert_eq!(doc.followers, user.followers);
    assert_eq!(doc.following, user.following);
    assert_eq!(doc.featured, user.featured);
    assert_eq!(doc.featured_tags, user.featured_tags);
    assert_eq!(doc.preferred_username, user.display_name);
    assert_eq!(doc.name, user.name);
    assert_eq!(doc.summary, user.summary);
    assert_eq!(doc.url, user.url);
    assert!(!doc.manually_approves_followers);
    assert!(doc.discoverable);
    assert!(!doc.indexable);
    assert_eq!(doc.memorial, Some(false));
    assert_eq!(doc.devices, None);
    assert_eq!(doc.icon.kind, "Image");
    assert_eq!(doc.icon.media_type, "image/jpeg");
    assert_eq!(doc.icon.url, user.icon_location);
    assert_eq!(doc.image.url, user.image_location);
}

#[test]
fn document_timestamp_uses_the_fixed_wire_format() {
    let doc = build_actor_document(&alice(), Some(&alice_keys())).unwrap();
    assert_eq!(doc.published, "2015-05-15 00:00:00");
    let mut epoch_user = alice();
    epoch_user.published = 0;
    let epoch_doc = build_actor_document(&epoch_user, Some(&alice_keys())).unwrap();
    assert_eq!(epoch_doc.published, "1970-01-01 00:00:00");
}

#[test]
fn document_key_block_is_owned_by_the_federation_id() {
    let user = alice();
    let doc = build_actor_document(&user, Some(&alice_keys())).unwrap();
    assert_eq!(
        doc.public_key.id,
        "https://example.com/users/alice#main-key"
    );
    assert_eq!(doc.public_key.owner, user.federation_id);
    assert_eq!(doc.public_key.public_key_pem, "PUBLIC-PEM");
}

#[test]
fn missing_key_pair_fails_the_build() {
    assert_eq!(
        build_actor_document(&alice(), None),
        Err(BuildError::NoSigningKey)
    );
}

#[test]
fn get_public_key_builds_the_key_block() {
    let user = alice();
    let pk = PersonActor::get_public_key(&user, &alice_keys());
    assert_eq!(pk.id, "https://example.com/users/alice#main-key");
    assert_eq!(pk.owner, user.federation_id);
    assert_eq!(pk.public_key_pem, "PUBLIC-PEM");
}

#[test]
fn locally_built_document_passes_the_ownership_check() {
    // The node must trust its own documents under the same rule it
    // applies to remote ones.
    let user = alice();
    let keys = alice_keys();
    let doc = build_actor_document(&user, Some(&keys)).unwrap();
    let as_fetched = doc.to_remote_actor();
    let record = validate_key_ownership(user.federation_id.as_str(), &as_fetched).unwrap();
    assert_eq!(record.actor_url, user.federation_id);
    assert_eq!(record.public_key_pem, keys.public_key_pem);
}
