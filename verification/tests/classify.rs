use fedid::identifier::Identification;
use fedid::classify;

#[test]
fn numeric_strings_classify_as_userid() {
    assert_eq!(classify("123"), Identification::UserId(123));
    assert_eq!(classify("0"), Identification::UserId(0));
    assert_eq!(classify("5"), Identification::UserId(5));
    assert_eq!(
        classify("18446744073709551615"),
        Identification::UserId(u64::MAX)
    );
}

#[test]
fn numeric_string_beyond_id_range_falls_back_to_username() {
    // One digit past u64::MAX: numeric, but no id can carry it.
    assert_eq!(
        classify("18446744073709551616"),
        Identification::Username("18446744073709551616".to_string())
    );
}

#[test]
fn account_handles_classify_as_account() {
    assert_eq!(
        classify("alice@example.com"),
        Identification::Account("alice@example.com".to_string())
    );
    assert_eq!(
        classify("seungjin@prefer.social"),
        Identification::Account("seungjin@prefer.social".to_string())
    );
    assert_eq!(
        classify("a_b+c.d@sub-domain.example.org"),
        Identification::Account("a_b+c.d@sub-domain.example.org".to_string())
    );
}

#[test]
fn handle_with_invalid_tld_is_a_username() {
    // The domain needs a final label of two to six letters.
    assert_eq!(
        classify("foo@google"),
        Identification::Username("foo@google".to_string())
    );
}

#[test]
fn bare_domain_is_a_username() {
    // The URL pattern requires a scheme.
    assert_eq!(
        classify("google.com"),
        Identification::Username("google.com".to_string())
    );
}

#[test]
fn handle_with_leading_at_is_a_username() {
    // The local part may not be empty, and no later split can help.
    assert_eq!(
        classify("@seungjin@prefer.social"),
        Identification::Username("@seungjin@prefer.social".to_string())
    );
}

#[test]
fn handle_with_dotted_edge_is_a_username() {
    assert_eq!(
        classify(".alice@example.com"),
        Identification::Username(".alice@example.com".to_string())
    );
    assert_eq!(
        classify("alice.@example.com"),
        Identification::Username("alice.@example.com".to_string())
    );
}

#[test]
fn urls_classify_as_actor_url() {
    assert_eq!(
        classify("https://seungjin.prefer.social"),
        Identification::ActorUrl("https://seungjin.prefer.social".to_string())
    );
    assert_eq!(
        classify("https://example.com/users/alice"),
        Identification::ActorUrl("https://example.com/users/alice".to_string())
    );
    assert_eq!(
        classify("http://example.com"),
        Identification::ActorUrl("http://example.com".to_string())
    );
}

#[test]
fn scheme_without_host_dot_is_a_username() {
    assert_eq!(
        classify("https://x"),
        Identification::Username("https://x".to_string())
    );
    assert_eq!(
        classify("https://"),
        Identification::Username("https://".to_string())
    );
}

#[test]
fn plain_usernames_fall_through() {
    assert_eq!(
        classify("seungjin"),
        Identification::Username("seungjin".to_string())
    );
    assert_eq!(
        classify("seungjin.kim"),
        Identification::Username("seungjin.kim".to_string())
    );
    assert_eq!(classify(""), Identification::Username(String::new()));
}

#[test]
fn get_and_classify_agree() {
    assert_eq!(Identification::get("42"), classify("42"));
    assert_eq!(
        Identification::get("alice@example.com"),
        classify("alice@example.com")
    );
}

#[test]
fn to_actor_url_keeps_a_url_unchanged() {
    let url = Identification::ActorUrl("https://example.com/users/alice".to_string());
    assert_eq!(Identification::to_actor_url(url.clone()), url);
}
