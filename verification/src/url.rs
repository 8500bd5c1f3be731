use vstd::prelude::*;

verus! {

use vstd::string::StringExecFns;
use crate::numeral::dec_rep;
use crate::numeral::u64_to_decimal;
use crate::percent::decode_spec;
use crate::percent::encode_spec;
use crate::percent::lemma_percent_roundtrip;
use crate::percent::percent_encode;
use vstd::utf8::is_ascii_chars;

/// The loopback redirect URI for an ephemeral port.
pub open spec fn redirect_uri_spec(port: nat) -> Seq<char> {
    "http://127.0.0.1:"@ + dec_rep(port) + "/callback"@
}

/// The consent-page URL: the fixed endpoint and response type, then the
/// percent-encoded client id, redirect URI and scope, then the offline
/// access and consent-prompt switches.
pub open spec fn auth_url_spec(cid: Seq<char>, ru: Seq<char>, scope: Seq<char>) -> Seq<char> {
    "https://accounts.google.com/o/oauth2/v2/auth?response_type=code&client_id="@ + encode_spec(
        cid,
    ) + "&redirect_uri="@ + encode_spec(ru) + "&scope="@ + encode_spec(scope)
        + "&access_type=offline&prompt=consent"@
}

/// The form body of the authorization-code exchange, in the order the
/// token endpoint is posted: client id, client secret, code, grant type,
/// redirect URI.
pub open spec fn exchange_body_spec(
    cid: Seq<char>,
    secret: Seq<char>,
    code: Seq<char>,
    ru: Seq<char>,
) -> Seq<char> {
    "client_id="@ + encode_spec(cid) + "&client_secret="@ + encode_spec(secret) + "&code="@
        + encode_spec(code) + "&grant_type=authorization_code&redirect_uri="@ + encode_spec(ru)
}

/// The form body of the refresh exchange: client id, client secret, grant
/// type, refresh token.
pub open spec fn refresh_body_spec(cid: Seq<char>, secret: Seq<char>, rt: Seq<char>) -> Seq<char> {
    "client_id="@ + encode_spec(cid) + "&client_secret="@ + encode_spec(secret)
        + "&grant_type=refresh_token&refresh_token="@ + encode_spec(rt)
}

/// Build the loopback redirect URI for the port the listener was given.
pub fn build_redirect_uri(port: u16) -> (r: String)
    ensures
        r@ == redirect_uri_spec(port as nat),
        r.is_ascii(),
{
    let mut r = String::from_str("http://127.0.0.1:");
    let digits = u64_to_decimal(port as u64);
    r.append(digits.as_str());
    r.append("/callback");
    proof {
        reveal_strlit("http://127.0.0.1:");
        reveal_strlit("/callback");
        assert(is_ascii_chars("http://127.0.0.1:"@));
        assert(is_ascii_chars("/callback"@));
        crate::percent::lemma_ascii_concat("http://127.0.0.1:"@, digits@);
        crate::percent::lemma_ascii_concat("http://127.0.0.1:"@ + digits@, "/callback"@);
        assert(r@ == ("http://127.0.0.1:"@ + digits@) + "/callback"@);
    }
    r
}

/// Build the consent-page URL; each parameter is percent-encoded, so
/// decoding any of them reproduces the original value.
pub fn build_auth_url(client_id: &str, redirect_uri: &str, scope: &str) -> (r: String)
    requires
        client_id.is_ascii(),
        redirect_uri.is_ascii(),
        scope.is_ascii(),
    ensures
        r@ == auth_url_spec(client_id@, redirect_uri@, scope@),
{
    let mut r = String::from_str(
        "https://accounts.google.com/o/oauth2/v2/auth?response_type=code&client_id=",
    );
    let e1 = percent_encode(client_id);
    r.append(e1.as_str());
    r.append("&redirect_uri=");
    let e2 = percent_encode(redirect_uri);
    r.append(e2.as_str());
    r.append("&scope=");
    let e3 = percent_encode(scope);
    r.append(e3.as_str());
    r.append("&access_type=offline&prompt=consent");
    r
}

/// Build the form body of the authorization-code exchange.
pub fn build_exchange_body(client_id: &str, client_secret: &str, code: &str, redirect_uri: &str) -> (r:
    String)
    requires
        client_id.is_ascii(),
        client_secret.is_ascii(),
        code.is_ascii(),
        redirect_uri.is_ascii(),
    ensures
        r@ == exchange_body_spec(client_id@, client_secret@, code@, redirect_uri@),
{
    let mut r = String::from_str("client_id=");
    let e1 = percent_encode(client_id);
    r.append(e1.as_str());
    r.append("&client_secret=");
    let e2 = percent_encode(client_secret);
    r.append(e2.as_str());
    r.append("&code=");
    let e3 = percent_encode(code);
    r.append(e3.as_str());
    r.append("&grant_type=authorization_code&redirect_uri=");
    let e4 = percent_encode(redirect_uri);
    r.append(e4.as_str());
    r
}

/// Build the form body of the refresh exchange.
pub fn build_refresh_body(client_id: &str, client_secret: &str, refresh_token: &str) -> (r: String)
    requires
        client_id.is_ascii(),
        client_secret.is_ascii(),
        refresh_token.is_ascii(),
    ensures
        r@ == refresh_body_spec(client_id@, client_secret@, refresh_token@),
{
    let mut r = String::from_str("client_id=");
    let e1 = percent_encode(client_id);
    r.append(e1.as_str());
    r.append("&client_secret=");
    let e2 = percent_encode(client_secret);
    r.append(e2.as_str());
    r.append("&grant_type=refresh_token&refresh_token=");
    let e3 = percent_encode(refresh_token);
    r.append(e3.as_str());
    r
}

/// Each query parameter of the consent-page URL decodes back to the exact
/// value it was built from: the encoding round-trips.
pub proof fn lemma_auth_url_roundtrip(cid: Seq<char>, ru: Seq<char>, scope: Seq<char>)
    requires
        is_ascii_chars(cid),
        is_ascii_chars(ru),
        is_ascii_chars(scope),
    ensures
        decode_spec(encode_spec(cid)) == Some(cid),
        decode_spec(encode_spec(ru)) == Some(ru),
        decode_spec(encode_spec(scope)) == Some(scope),
{
    lemma_percent_roundtrip(cid);
    lemma_percent_roundtrip(ru);
    lemma_percent_roundtrip(scope);
}

} // verus!
