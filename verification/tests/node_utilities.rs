use fedid::clock::{
    format_iso8601_timestamp, format_rfc1123_timestamp, format_wire_timestamp,
    get_current_time_in_iso_8601, get_current_time_in_rfc_1123,
};
use fedid::http_response::HttpResponse;
use fedid::text::{clean_last_slash_from_url, str_eq};
use fedid::token::create_token;

#[test]
fn rejection_responses_carry_their_fixed_bodies() {
    let unauthorized = HttpResponse::unauthorized();
    assert_eq!(unauthorized.status, 401);
    assert_eq!(unauthorized.content_type, "Application/json");
    assert_eq!(unauthorized.body, r#"{"message": "Unauthorized (401)"}"#);

    let not_found = HttpResponse::not_found();
    assert_eq!(not_found.status, 404);
    assert_eq!(not_found.body, r#"{"message": "Not Found (404)"}"#);

    let not_implemented = HttpResponse::not_implemented();
    assert_eq!(not_implemented.status, 401);
    assert_eq!(
        not_implemented.body,
        r#"{"message": "Not Implemented Yet (401)"}"#
    );

    let invalid = HttpResponse::invalid_request();
    assert_eq!(invalid.status, 400);
    assert_eq!(invalid.body, r#"{"message": "Invalid Request (400)"}"#);
}

#[test]
fn timestamps_render_in_each_wire_format() {
    assert_eq!(
        format_wire_timestamp(0),
        Some("1970-01-01 00:00:00".to_string())
    );
    assert_eq!(
        format_wire_timestamp(1431648000),
        Some("2015-05-15 00:00:00".to_string())
    );
    assert_eq!(
        format_rfc1123_timestamp(0),
        Some("Thu, 01 Jan 1970 00:00:00 GMT".to_string())
    );
    assert_eq!(
        format_iso8601_timestamp(1709014674),
        Some("2024-02-27T06:17:54Z".to_string())
    );
}

#[test]
fn current_time_formatters_produce_a_value() {
    let rfc = get_current_time_in_rfc_1123().unwrap();
    assert!(rfc.ends_with(" GMT"));
    let iso = get_current_time_in_iso_8601().unwrap();
    assert!(iso.ends_with('Z'));
}

#[test]
fn tokens_are_long_random_and_alphanumeric() {
    let token = create_token();
    assert_eq!(token.len(), 64);
    assert!(token.chars().all(|c| c.is_ascii_alphanumeric()));
    assert!(token.chars().any(|c| c.is_ascii_digit()));
    assert!(token.chars().any(|c| c.is_ascii_lowercase()));
    assert!(token.chars().any(|c| c.is_ascii_uppercase()));
    assert_ne!(create_token(), token);
}

#[test]
fn root_path_urls_lose_their_trailing_slash() {
    assert_eq!(
        clean_last_slash_from_url("https://example.com/", "/"),
        "https://example.com"
    );
    assert_eq!(
        clean_last_slash_from_url("https://example.com/users/alice", "/users/alice"),
        "https://example.com/users/alice"
    );
}

#[test]
fn str_eq_compares_exactly() {
    assert!(str_eq("abc", "abc"));
    assert!(!str_eq("abc", "abd"));
    assert!(!str_eq("abc", "abcd"));
    assert!(str_eq("", ""));
}
