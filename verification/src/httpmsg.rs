use vstd::prelude::*;

verus! {

use vstd::string::StrSliceExecFns;
use vstd::string::StringExecFns;
use vstd::utf8::is_ascii_chars;
use crate::numeral::dec_rep;
use crate::numeral::u64_to_decimal;

/// The one response the browser is shown, whatever the outcome: a fixed
/// 200 with the body's exact length announced, so the connection can be
/// closed at once.
pub open spec fn ok_response_spec(body: Seq<char>) -> Seq<char> {
    "HTTP/1.1 200 OK\r\nContent-Type: text/html; charset=utf-8\r\nContent-Length: "@ + dec_rep(
        body.len(),
    ) + "\r\nConnection: close\r\n\r\n"@ + body
}

/// The confirmation page the browser tab ends on.
pub open spec fn confirm_page_spec() -> Seq<char> {
    "<html><body><h3>Signed in successfully</h3><p>You can close this window and return to the app.</p></body></html>"@
}

/// Build the HTTP response that carries an ASCII body; the content length
/// announced is the body's length.
pub fn build_ok_response(body: &str) -> (r: String)
    requires
        body.is_ascii(),
    ensures
        r@ == ok_response_spec(body@),
{
    let mut r = String::from_str(
        "HTTP/1.1 200 OK\r\nContent-Type: text/html; charset=utf-8\r\nContent-Length: ",
    );
    let n = body.unicode_len();
    let digits = u64_to_decimal(n as u64);
    r.append(digits.as_str());
    r.append("\r\nConnection: close\r\n\r\n");
    r.append(body);
    r
}

/// Build the full response around the confirmation page.
pub fn build_confirmation_response() -> (r: String)
    ensures
        r@ == ok_response_spec(confirm_page_spec()),
{
    let page =
        "<html><body><h3>Signed in successfully</h3><p>You can close this window and return to the app.</p></body></html>";
    proof {
        reveal_strlit(
            "<html><body><h3>Signed in successfully</h3><p>You can close this window and return to the app.</p></body></html>",
        );
        assert(is_ascii_chars(page@));
    }
    build_ok_response(page)
}

} // verus!
