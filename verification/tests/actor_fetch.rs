use fedid::actor::{parse_actor_response, FetchError};

const ALICE_DOC: &str = r#"{
    "id": "https://example.com/users/alice",
    "type": "Person",
    "inbox": "https://example.com/users/alice/inbox",
    "outbox": "https://example.com/users/alice/outbox",
    "followers": "https://example.com/users/alice/followers",
    "following": "https://example.com/users/alice/following",
    "name": "Alice",
    "preferredUsername": "alice",
    "published": "2024-02-27 06:17:54",
    "publicKey": {
        "id": "https://example.com/users/alice#main-key",
        "owner": "https://example.com/users/alice",
        "publicKeyPem": "-----BEGIN PUBLIC KEY-----\nMFkw\n-----END PUBLIC KEY-----\n"
    }
}"#;

#[test]
fn fetch_parses_a_well_formed_actor_document() {
    let actor = parse_actor_response(Some((200, ALICE_DOC))).unwrap();
    assert_eq!(actor.profile.actor_url, "https://example.com/users/alice");
    assert_eq!(actor.profile.kind, "Person");
    assert_eq!(
        actor.profile.inbox_url,
        "https://example.com/users/alice/inbox"
    );
    assert_eq!(
        actor.profile.outbox_url,
        "https://example.com/users/alice/outbox"
    );
    assert_eq!(
        actor.profile.followers_url,
        "https://example.com/users/alice/followers"
    );
    assert_eq!(
        actor.profile.following_url,
        "https://example.com/users/alice/following"
    );
    assert_eq!(actor.profile.display_name, "Alice");
    assert_eq!(actor.profile.preferred_username, "alice");
    assert_eq!(actor.profile.published, "2024-02-27 06:17:54");
    assert_eq!(
        actor.public_key.id,
        "https://example.com/users/alice#main-key"
    );
    assert_eq!(actor.public_key.owner, "https://example.com/users/alice");
    assert_eq!(
        actor.public_key.public_key_pem,
        "-----BEGIN PUBLIC KEY-----\nMFkw\n-----END PUBLIC KEY-----\n"
    );
}

#[test]
fn fetch_reports_non_200_status_without_parsing() {
    // Even a perfectly valid body is not consulted on a failed status.
    assert_eq!(
        parse_actor_response(Some((404, ALICE_DOC))),
        Err(FetchError::HttpStatus(404))
    );
    assert_eq!(
        parse_actor_response(Some((500, "garbage"))),
        Err(FetchError::HttpStatus(500))
    );
    assert_eq!(
        parse_actor_response(Some((301, ""))),
        Err(FetchError::HttpStatus(301))
    );
}

#[test]
fn fetch_rejects_a_document_missing_required_fields() {
    let no_owner = r#"{
        "inbox": "https://example.com/users/alice/inbox",
        "publicKey": {"publicKeyPem": "PEM"}
    }"#;
    assert_eq!(
        parse_actor_response(Some((200, no_owner))),
        Err(FetchError::MalformedDocument)
    );
    let no_pem = r#"{
        "inbox": "https://example.com/users/alice/inbox",
        "publicKey": {"owner": "https://example.com/users/alice"}
    }"#;
    assert_eq!(
        parse_actor_response(Some((200, no_pem))),
        Err(FetchError::MalformedDocument)
    );
    let no_inbox = r#"{
        "publicKey": {"owner": "https://example.com/users/alice", "publicKeyPem": "PEM"}
    }"#;
    assert_eq!(
        parse_actor_response(Some((200, no_inbox))),
        Err(FetchError::MalformedDocument)
    );
    let no_key = r#"{"inbox": "https://example.com/users/alice/inbox"}"#;
    assert_eq!(
        parse_actor_response(Some((200, no_key))),
        Err(FetchError::MalformedDocument)
    );
}

#[test]
fn fetch_rejects_a_body_that_is_not_json() {
    assert_eq!(
        parse_actor_response(Some((200, "<html>not here</html>"))),
        Err(FetchError::MalformedDocument)
    );
}

#[test]
fn fetch_defaults_optional_fields_to_empty() {
    let minimal = r#"{
        "inbox": "https://example.com/users/min/inbox",
        "publicKey": {"owner": "https://example.com/users/min", "publicKeyPem": "PEM"}
    }"#;
    let actor = parse_actor_response(Some((200, minimal))).unwrap();
    assert_eq!(actor.profile.actor_url, "");
    assert_eq!(actor.profile.kind, "");
    assert_eq!(actor.profile.inbox_url, "https://example.com/users/min/inbox");
    assert_eq!(actor.public_key.id, "");
}

#[test]
fn fetch_maps_transport_failure_to_network() {
    assert_eq!(parse_actor_response(None), Err(FetchError::Network));
}
