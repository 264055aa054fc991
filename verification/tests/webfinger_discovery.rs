use fedid::webfinger::{
    resolve_webfinger, select_self_link, webfinger_url, DiscoveryError, WebfingerLink,
};

#[test]
fn webfinger_url_targets_the_handle_domain() {
    assert_eq!(
        webfinger_url("alice@example.com"),
        "https://example.com/.well-known/webfinger?resource=acct:alice@example.com"
    );
}

#[test]
fn webfinger_url_uses_the_last_at() {
    // A handle with a decorative leading @ still queries the real domain.
    assert_eq!(
        webfinger_url("@seungjin@mstd.seungjin.net"),
        "https://mstd.seungjin.net/.well-known/webfinger?resource=acct:@seungjin@mstd.seungjin.net"
    );
}

#[test]
fn webfinger_url_without_an_at_queries_the_whole_string_as_domain() {
    assert_eq!(
        webfinger_url("example.com"),
        "https://example.com/.well-known/webfinger?resource=acct:example.com"
    );
}

#[test]
fn resolve_webfinger_returns_the_self_href() {
    let body = r#"{"links":[{"rel":"self","href":"https://example.com/users/alice"}]}"#;
    assert_eq!(
        resolve_webfinger(Some(body)),
        Ok("https://example.com/users/alice".to_string())
    );
}

#[test]
fn resolve_webfinger_ignores_other_rel_values() {
    let body = r#"{"links":[
        {"rel":"http://webfinger.net/rel/profile-page","href":"https://example.com/@alice"},
        {"rel":"self","href":"https://example.com/users/alice"},
        {"rel":"self","href":"https://example.com/users/alice-second"}
    ]}"#;
    assert_eq!(
        resolve_webfinger(Some(body)),
        Ok("https://example.com/users/alice".to_string())
    );
}

#[test]
fn resolve_webfinger_passes_over_a_self_link_without_href() {
    let body = r#"{"links":[
        {"rel":"self"},
        {"rel":"self","href":"https://example.com/users/alice"}
    ]}"#;
    assert_eq!(
        resolve_webfinger(Some(body)),
        Ok("https://example.com/users/alice".to_string())
    );
}

#[test]
fn resolve_webfinger_without_self_link_is_not_found() {
    let body = r#"{"links":[{"rel":"http://webfinger.net/rel/avatar","href":"https://x/y"}]}"#;
    assert_eq!(resolve_webfinger(Some(body)), Err(DiscoveryError::NotFound));
    let empty = r#"{"links":[]}"#;
    assert_eq!(
        resolve_webfinger(Some(empty)),
        Err(DiscoveryError::NotFound)
    );
}

#[test]
fn resolve_webfinger_rejects_bodies_without_a_links_array() {
    assert_eq!(
        resolve_webfinger(Some("not json at all")),
        Err(DiscoveryError::MalformedResponse)
    );
    assert_eq!(
        resolve_webfinger(Some(r#"{"subject":"acct:alice@example.com"}"#)),
        Err(DiscoveryError::MalformedResponse)
    );
    assert_eq!(
        resolve_webfinger(Some(r#"{"links":"oops"}"#)),
        Err(DiscoveryError::MalformedResponse)
    );
}

#[test]
fn resolve_webfinger_maps_transport_failure_to_network() {
    assert_eq!(resolve_webfinger(None), Err(DiscoveryError::Network));
}

#[test]
fn select_self_link_takes_the_first_usable_link() {
    let links = vec![
        WebfingerLink {
            rel: "alternate".to_string(),
            href: Some("https://example.com/a".to_string()),
        },
        WebfingerLink {
            rel: "self".to_string(),
            href: None,
        },
        WebfingerLink {
            rel: "self".to_string(),
            href: Some("https://example.com/users/bob".to_string()),
        },
    ];
    assert_eq!(
        select_self_link(&links),
        Some("https://example.com/users/bob".to_string())
    );
    assert_eq!(select_self_link(&Vec::new()), None);
}
