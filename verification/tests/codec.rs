use oauth_loopback::httpmsg::build_confirmation_response;
use oauth_loopback::httpmsg::build_ok_response;
use oauth_loopback::numeral::u64_to_decimal;
use oauth_loopback::percent::percent_decode;
use oauth_loopback::percent::percent_encode;
use oauth_loopback::url::build_auth_url;
use oauth_loopback::url::build_exchange_body;
use oauth_loopback::url::build_redirect_uri;
use oauth_loopback::url::build_refresh_body;

#[test]
fn encode_passes_unreserved_through() {
    assert_eq!(percent_encode("Az09-_.~"), "Az09-_.~");
}

#[test]
fn encode_uses_uppercase_hex() {
    assert_eq!(percent_encode("a/b"), "a%2Fb");
    assert_eq!(percent_encode("a b&c=d"), "a%20b%26c%3Dd");
    assert_eq!(percent_encode(""), "");
}

#[test]
fn decode_undoes_encode() {
    for s in ["", "abc", "a/b", "http://127.0.0.1:8080/callback", "x y&z=1?~_."] {
        let e = percent_encode(s);
        assert_eq!(percent_decode(&e).as_deref(), Some(s));
    }
}

#[test]
fn decode_accepts_lowercase_hex() {
    assert_eq!(percent_decode("a%2fb").as_deref(), Some("a/b"));
}

#[test]
fn decode_rejects_bad_sequences() {
    assert_eq!(percent_decode("a%2"), None);
    assert_eq!(percent_decode("a%zz"), None);
    assert_eq!(percent_decode("%"), None);
    assert_eq!(percent_decode("%C3%A9"), None);
}

#[test]
fn encode_matches_urlencoding_crate() {
    for s in ["abc", "a/b c", "http://127.0.0.1:8080/callback", "~-_.", "k=v&k2=v2"] {
        assert_eq!(percent_encode(s), urlencoding::encode(s).into_owned());
    }
}

#[test]
fn decode_matches_urlencoding_crate_on_valid_input() {
    for s in ["abc", "a%2Fb", "a%20b", "x%3Dy%26z"] {
        assert_eq!(
            percent_decode(s).expect("decodes"),
            urlencoding::decode(s).expect("decodes").into_owned()
        );
    }
}

#[test]
fn decimal_rendering_is_exact() {
    assert_eq!(u64_to_decimal(0), "0");
    assert_eq!(u64_to_decimal(7), "7");
    assert_eq!(u64_to_decimal(65535), "65535");
    assert_eq!(u64_to_decimal(18446744073709551615), "18446744073709551615");
}

#[test]
fn redirect_uri_carries_the_port() {
    assert_eq!(build_redirect_uri(8080), "http://127.0.0.1:8080/callback");
    assert_eq!(build_redirect_uri(1), "http://127.0.0.1:1/callback");
}

#[test]
fn auth_url_is_exact() {
    let url = build_auth_url("id1", "http://127.0.0.1:8080/callback", "scope a");
    assert_eq!(
        url,
        "https://accounts.google.com/o/oauth2/v2/auth?response_type=code&client_id=id1\
         &redirect_uri=http%3A%2F%2F127.0.0.1%3A8080%2Fcallback&scope=scope%20a\
         &access_type=offline&prompt=consent"
    );
}

#[test]
fn exchange_body_is_exact() {
    let body = build_exchange_body("id1", "s/x", "a/b", "http://127.0.0.1:9/callback");
    assert_eq!(
        body,
        "client_id=id1&client_secret=s%2Fx&code=a%2Fb&grant_type=authorization_code\
         &redirect_uri=http%3A%2F%2F127.0.0.1%3A9%2Fcallback"
    );
}

#[test]
fn refresh_body_is_exact() {
    let body = build_refresh_body("id1", "sec", "tok/1");
    assert_eq!(
        body,
        "client_id=id1&client_secret=sec&grant_type=refresh_token&refresh_token=tok%2F1"
    );
}

#[test]
fn ok_response_announces_the_body_length() {
    let r = build_ok_response("hi");
    assert_eq!(
        r,
        "HTTP/1.1 200 OK\r\nContent-Type: text/html; charset=utf-8\r\nContent-Length: 2\r\nConnection: close\r\n\r\nhi"
    );
}

#[test]
fn confirmation_response_carries_the_page() {
    let page = "<html><body><h3>Signed in successfully</h3><p>You can close this window and return to the app.</p></body></html>";
    let r = build_confirmation_response();
    assert!(r.starts_with("HTTP/1.1 200 OK\r\n"));
    assert!(r.ends_with(page));
    let wanted = format!("Content-Length: {}\r\n", page.len());
    assert!(r.contains(&wanted));
}
