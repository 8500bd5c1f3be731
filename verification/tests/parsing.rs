use oauth_loopback::json::decode_token_response;
use oauth_loopback::request::RedirectOutcome;
use oauth_loopback::request::extract_auth_result;

#[test]
fn extraction_yields_the_code() {
    let r = extract_auth_result("GET /callback?code=abc123 HTTP/1.1\r\n");
    assert!(matches!(r, RedirectOutcome::Code(c) if c == "abc123"));
}

#[test]
fn extraction_surfaces_a_provider_denial() {
    let r = extract_auth_result("GET /callback?error=access_denied HTTP/1.1\r\n");
    assert!(matches!(r, RedirectOutcome::ProviderDenied(d) if d == "access_denied"));
}

#[test]
fn extraction_decodes_the_code() {
    let r = extract_auth_result("GET /callback?code=a%2Fb HTTP/1.1\r\n");
    assert!(matches!(r, RedirectOutcome::Code(c) if c == "a/b"));
}

#[test]
fn extraction_without_query_is_code_missing() {
    let r = extract_auth_result("GET /callback HTTP/1.1\r\n");
    assert!(matches!(r, RedirectOutcome::CodeMissing));
}

#[test]
fn extraction_on_an_empty_line_is_code_missing() {
    assert!(matches!(extract_auth_result(""), RedirectOutcome::CodeMissing));
}

#[test]
fn a_code_wins_over_an_error() {
    let r = extract_auth_result("GET /callback?error=x&code=y HTTP/1.1\r\n");
    assert!(matches!(r, RedirectOutcome::Code(c) if c == "y"));
}

#[test]
fn an_undecodable_code_falls_back_to_the_error() {
    let r = extract_auth_result("GET /callback?code=%zz&error=bad HTTP/1.1\r\n");
    assert!(matches!(r, RedirectOutcome::ProviderDenied(d) if d == "bad"));
}

#[test]
fn the_code_is_found_among_other_parameters() {
    let r = extract_auth_result("GET /callback?state=s1&code=c9&scope=x HTTP/1.1\r\n");
    assert!(matches!(r, RedirectOutcome::Code(c) if c == "c9"));
}

#[test]
fn a_full_token_body_decodes() {
    let t = decode_token_response(
        "{\"access_token\":\"at1\",\"expires_in\":3599,\"refresh_token\":\"rt1\",\
         \"scope\":\"s1\",\"token_type\":\"Bearer\"}",
    )
    .expect("decodes");
    assert_eq!(t.access_token, "at1");
    assert_eq!(t.expires_in, 3599);
    assert_eq!(t.refresh_token.as_deref(), Some("rt1"));
    assert_eq!(t.scope.as_deref(), Some("s1"));
    assert_eq!(t.token_type, "Bearer");
}

#[test]
fn whitespace_around_members_is_accepted() {
    let t = decode_token_response(
        " { \"access_token\" : \"a\" , \"token_type\" : \"Bearer\" , \"expires_in\" : 1 } ",
    )
    .expect("decodes");
    assert_eq!(t.access_token, "a");
    assert_eq!(t.expires_in, 1);
    assert_eq!(t.refresh_token, None);
    assert_eq!(t.scope, None);
}

#[test]
fn a_null_refresh_token_is_absent() {
    let t = decode_token_response(
        "{\"access_token\":\"a\",\"token_type\":\"B\",\"expires_in\":2,\"refresh_token\":null}",
    )
    .expect("decodes");
    assert_eq!(t.refresh_token, None);
}

#[test]
fn unknown_scalar_members_are_ignored() {
    let t = decode_token_response(
        "{\"access_token\":\"a\",\"id_token\":\"x.y.z\",\"token_type\":\"B\",\
         \"expires_in\":2,\"extra\":true}",
    )
    .expect("decodes");
    assert_eq!(t.access_token, "a");
}

#[test]
fn string_escapes_are_decoded() {
    let t = decode_token_response(
        "{\"access_token\":\"a\\\"b\\\\c\\n\",\"token_type\":\"B\",\"expires_in\":2}",
    )
    .expect("decodes");
    assert_eq!(t.access_token, "a\"b\\c\n");
}

#[test]
fn a_missing_required_member_is_rejected() {
    assert!(decode_token_response("{\"token_type\":\"B\",\"expires_in\":2}").is_none());
    assert!(decode_token_response("{\"access_token\":\"a\",\"expires_in\":2}").is_none());
    assert!(decode_token_response("{\"access_token\":\"a\",\"token_type\":\"B\"}").is_none());
}

#[test]
fn a_wrongly_typed_member_is_rejected() {
    assert!(
        decode_token_response("{\"access_token\":7,\"token_type\":\"B\",\"expires_in\":2}")
            .is_none()
    );
    assert!(
        decode_token_response(
            "{\"access_token\":\"a\",\"token_type\":\"B\",\"expires_in\":\"2\"}"
        )
        .is_none()
    );
    assert!(
        decode_token_response(
            "{\"access_token\":\"a\",\"token_type\":\"B\",\"expires_in\":2,\"scope\":true}"
        )
        .is_none()
    );
}

#[test]
fn an_oversized_expiry_is_rejected() {
    assert!(
        decode_token_response(
            "{\"access_token\":\"a\",\"token_type\":\"B\",\"expires_in\":4294967296}"
        )
        .is_none()
    );
    let t = decode_token_response(
        "{\"access_token\":\"a\",\"token_type\":\"B\",\"expires_in\":4294967295}",
    )
    .expect("decodes");
    assert_eq!(t.expires_in, 4294967295);
}

#[test]
fn malformed_json_is_rejected() {
    assert!(decode_token_response("").is_none());
    assert!(decode_token_response("{").is_none());
    assert!(decode_token_response("[]").is_none());
    assert!(decode_token_response("{\"a\":\"b\"} x").is_none());
    assert!(decode_token_response("{\"error\":\"invalid_grant\"}").is_none());
}

#[test]
fn an_empty_object_lacks_the_required_members() {
    assert!(decode_token_response("{}").is_none());
    assert!(decode_token_response(" { } ").is_none());
}

#[test]
fn unknown_nested_members_are_skipped() {
    let t = decode_token_response(
        "{\"access_token\":\"a\",\"extra\":{\"x\":[1,\"s\",true],\"y\":null},\
         \"token_type\":\"B\",\"expires_in\":2,\"aud\":[\"p\",\"q\"]}",
    )
    .expect("decodes");
    assert_eq!(t.access_token, "a");
    assert_eq!(t.expires_in, 2);
}

#[test]
fn empty_nested_members_are_skipped() {
    let t = decode_token_response(
        "{\"access_token\":\"a\",\"e1\":{},\"e2\":[],\"token_type\":\"B\",\"expires_in\":2}",
    )
    .expect("decodes");
    assert_eq!(t.access_token, "a");
}

#[test]
fn a_known_member_holding_a_nested_value_is_rejected() {
    assert!(
        decode_token_response(
            "{\"access_token\":\"a\",\"token_type\":\"B\",\"expires_in\":2,\"refresh_token\":{}}"
        )
        .is_none()
    );
}

#[test]
fn nesting_within_the_bound_is_skipped_and_beyond_it_rejected() {
    let shallow = format!("{}0{}", "[".repeat(10), "]".repeat(10));
    let ok = format!(
        "{{\"access_token\":\"a\",\"token_type\":\"B\",\"expires_in\":2,\"x\":{}}}",
        shallow
    );
    assert!(decode_token_response(&ok).is_some());
    let deep = format!("{}0{}", "[".repeat(40), "]".repeat(40));
    let bad = format!(
        "{{\"access_token\":\"a\",\"token_type\":\"B\",\"expires_in\":2,\"x\":{}}}",
        deep
    );
    assert!(decode_token_response(&bad).is_none());
}

#[test]
fn ascii_unicode_escapes_are_decoded() {
    let t = decode_token_response(
        "{\"access_token\":\"\\u0041b\\u004a\",\"token_type\":\"B\",\"expires_in\":2}",
    )
    .expect("decodes");
    assert_eq!(t.access_token, "AbJ");
}

#[test]
fn non_ascii_or_short_unicode_escapes_are_rejected() {
    assert!(
        decode_token_response(
            "{\"access_token\":\"\\u00e9\",\"token_type\":\"B\",\"expires_in\":2}"
        )
        .is_none()
    );
    assert!(
        decode_token_response(
            "{\"access_token\":\"\\u12\",\"token_type\":\"B\",\"expires_in\":2}"
        )
        .is_none()
    );
}

#[test]
fn the_query_stops_at_a_second_question_mark() {
    let r = extract_auth_result("GET /callback?code=x?y HTTP/1.1\r\n");
    assert!(matches!(r, RedirectOutcome::Code(c) if c == "x"));
}
