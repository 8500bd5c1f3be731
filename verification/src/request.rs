use vstd::prelude::*;

verus! {

use vstd::string::StrSliceExecFns;
use vstd::string::StringExecFns;
use crate::percent::decode_spec;
use crate::percent::percent_decode;

/// Whitespace as the request line is tokenized: space, tab, and the line
/// terminators.
pub open spec fn is_ws(c: char) -> bool {
    c == ' ' || c == '\t' || c == '\r' || c == '\n'
}

/// First position at or after `i` that does not hold whitespace.
pub open spec fn scan_ws(s: Seq<char>, i: int) -> int
    decreases s.len() - i,
{
    if 0 <= i < s.len() && is_ws(s[i]) {
        scan_ws(s, i + 1)
    } else {
        i
    }
}

/// First position at or after `i` that holds whitespace.
pub open spec fn scan_non_ws(s: Seq<char>, i: int) -> int
    decreases s.len() - i,
{
    if 0 <= i < s.len() && !is_ws(s[i]) {
        scan_non_ws(s, i + 1)
    } else {
        i
    }
}

/// First position at or after `i` that holds the character `t`.
pub open spec fn scan_to(s: Seq<char>, i: int, t: char) -> int
    decreases s.len() - i,
{
    if 0 <= i < s.len() && s[i] != t {
        scan_to(s, i + 1, t)
    } else {
        i
    }
}

/// The second whitespace-separated token of the request line: its path.
pub open spec fn second_token(s: Seq<char>) -> Seq<char> {
    let a = scan_ws(s, 0);
    let b = scan_non_ws(s, a);
    let c = scan_ws(s, b);
    let d = scan_non_ws(s, c);
    s.subrange(c, d)
}

/// The piece starting at `i` and ending at `e` reads `code=` and then a
/// value.
pub open spec fn code_at(q: Seq<char>, i: int, e: int) -> bool {
    &&& 0 <= i
    &&& i + 5 <= e <= q.len()
    &&& q[i] == 'c'
    &&& q[i + 1] == 'o'
    &&& q[i + 2] == 'd'
    &&& q[i + 3] == 'e'
    &&& q[i + 4] == '='
}

/// The piece starting at `i` and ending at `e` reads `error=` and then a
/// value.
pub open spec fn error_at(q: Seq<char>, i: int, e: int) -> bool {
    &&& 0 <= i
    &&& i + 6 <= e <= q.len()
    &&& q[i] == 'e'
    &&& q[i + 1] == 'r'
    &&& q[i + 2] == 'r'
    &&& q[i + 3] == 'o'
    &&& q[i + 4] == 'r'
    &&& q[i + 5] == '='
}

/// The decoded value of the first `code` parameter at or after `i` whose
/// value percent-decodes; pieces are separated by `&`.
pub open spec fn find_code(q: Seq<char>, i: int) -> Option<Seq<char>>
    decreases q.len() - i,
{
    let e = scan_to(q, i, '&');
    if code_at(q, i, e) && decode_spec(q.subrange(i + 5, e)) is Some {
        decode_spec(q.subrange(i + 5, e))
    } else if 0 <= i <= e && e < q.len() {
        find_code(q, e + 1)
    } else {
        None
    }
}

/// The raw value of the first `error` parameter at or after `i`.
pub open spec fn find_error(q: Seq<char>, i: int) -> Option<Seq<char>>
    decreases q.len() - i,
{
    let e = scan_to(q, i, '&');
    if error_at(q, i, e) {
        Some(q.subrange(i + 6, e))
    } else if 0 <= i <= e && e < q.len() {
        find_error(q, e + 1)
    } else {
        None
    }
}

/// What one redirect request yields: an authorization code, a denial the
/// provider sent instead, or neither.
pub enum RedirectOutcome {
    Code(String),
    ProviderDenied(String),
    CodeMissing,
}

/// The outcome at the specification level, over character sequences.
pub enum RedirectOutcomeSpec {
    Code(Seq<char>),
    ProviderDenied(Seq<char>),
    CodeMissing,
}

impl View for RedirectOutcome {
    type V = RedirectOutcomeSpec;

    open spec fn view(&self) -> RedirectOutcomeSpec {
        match self {
            RedirectOutcome::Code(c) => RedirectOutcomeSpec::Code(c@),
            RedirectOutcome::ProviderDenied(r) => RedirectOutcomeSpec::ProviderDenied(r@),
            RedirectOutcome::CodeMissing => RedirectOutcomeSpec::CodeMissing,
        }
    }
}

/// The outcome of one raw redirect request line: the query string — the
/// text between the path token's first `?` and its second, if any —
/// decides. A decodable `code` parameter wins; otherwise an `error`
/// parameter is the provider's denial; otherwise nothing was sent.
pub open spec fn outcome_spec(line: Seq<char>) -> RedirectOutcomeSpec {
    let tok = second_token(line);
    let q = scan_to(tok, 0, '?');
    if q >= tok.len() {
        RedirectOutcomeSpec::CodeMissing
    } else {
        let qs = tok.subrange(q + 1, scan_to(tok, q + 1, '?'));
        if find_code(qs, 0) is Some {
            RedirectOutcomeSpec::Code(find_code(qs, 0)->Some_0)
        } else if find_error(qs, 0) is Some {
            RedirectOutcomeSpec::ProviderDenied(find_error(qs, 0)->Some_0)
        } else {
            RedirectOutcomeSpec::CodeMissing
        }
    }
}

fn is_ws_exec(c: char) -> (r: bool)
    ensures
        r == is_ws(c),
{
    c == ' ' || c == '\t' || c == '\r' || c == '\n'
}

fn scan_ws_exec(s: &str, i: usize) -> (j: usize)
    requires
        i <= s@.len(),
    ensures
        j == scan_ws(s@, i as int),
        i <= j <= s@.len(),
    decreases s@.len() - i,
{
    let n = s.unicode_len();
    if i < n && is_ws_exec(s.get_char(i)) {
        scan_ws_exec(s, i + 1)
    } else {
        i
    }
}

fn scan_non_ws_exec(s: &str, i: usize) -> (j: usize)
    requires
        i <= s@.len(),
    ensures
        j == scan_non_ws(s@, i as int),
        i <= j <= s@.len(),
    decreases s@.len() - i,
{
    let n = s.unicode_len();
    if i < n && !is_ws_exec(s.get_char(i)) {
        scan_non_ws_exec(s, i + 1)
    } else {
        i
    }
}

fn scan_to_exec(s: &str, i: usize, t: char) -> (j: usize)
    requires
        i <= s@.len(),
    ensures
        j == scan_to(s@, i as int, t),
        i <= j <= s@.len(),
    decreases s@.len() - i,
{
    let n = s.unicode_len();
    if i < n && s.get_char(i) != t {
        scan_to_exec(s, i + 1, t)
    } else {
        i
    }
}

fn find_code_exec(q: &str, i: usize) -> (r: Option<String>)
    requires
        q.is_ascii(),
        i <= q@.len(),
    ensures
        r is Some <==> find_code(q@, i as int) is Some,
        r matches Some(s) ==> Some(s@) == find_code(q@, i as int) && s.is_ascii(),
    decreases q@.len() - i,
{
    let n = q.unicode_len();
    let e = scan_to_exec(q, i, '&');
    if e - i >= 5 && q.get_char(i) == 'c' && q.get_char(i + 1) == 'o' && q.get_char(i + 2) == 'd'
        && q.get_char(i + 3) == 'e' && q.get_char(i + 4) == '=' {
        assert(code_at(q@, i as int, e as int));
        let val = q.substring_ascii(i + 5, e);
        match percent_decode(val) {
            Some(d) => {
                return Some(d);
            },
            None => {
                if e < n {
                    return find_code_exec(q, e + 1);
                } else {
                    return None;
                }
            },
        }
    } else {
        assert(!code_at(q@, i as int, e as int));
        if e < n {
            return find_code_exec(q, e + 1);
        } else {
            return None;
        }
    }
}

fn find_error_exec(q: &str, i: usize) -> (r: Option<String>)
    requires
        q.is_ascii(),
        i <= q@.len(),
    ensures
        r is Some <==> find_error(q@, i as int) is Some,
        r matches Some(s) ==> Some(s@) == find_error(q@, i as int),
    decreases q@.len() - i,
{
    let n = q.unicode_len();
    let e = scan_to_exec(q, i, '&');
    if e - i >= 6 && q.get_char(i) == 'e' && q.get_char(i + 1) == 'r' && q.get_char(i + 2) == 'r'
        && q.get_char(i + 3) == 'o' && q.get_char(i + 4) == 'r' && q.get_char(i + 5) == '=' {
        assert(error_at(q@, i as int, e as int));
        let val = q.substring_ascii(i + 6, e);
        Some(String::from_str(val))
    } else {
        assert(!error_at(q@, i as int, e as int));
        if e < n {
            find_error_exec(q, e + 1)
        } else {
            None
        }
    }
}

/// Extract the outcome of the redirect from the raw request line, for
/// example `GET /callback?code=abc123 HTTP/1.1`. A line that is not ASCII
/// yields `CodeMissing`: RFC 6749 keeps authorization codes and error
/// names within printable ASCII, so such a line cannot carry a usable
/// code.
pub fn extract_auth_result(line: &str) -> (r: RedirectOutcome)
    ensures
        line.is_ascii() ==> r@ == outcome_spec(line@),
        !line.is_ascii() ==> r@ == RedirectOutcomeSpec::CodeMissing,
        r matches RedirectOutcome::Code(c) ==> c.is_ascii(),
{
    if !line.is_ascii() {
        return RedirectOutcome::CodeMissing;
    }
    let a = scan_ws_exec(line, 0);
    let b = scan_non_ws_exec(line, a);
    let c = scan_ws_exec(line, b);
    let d = scan_non_ws_exec(line, c);
    let tok = line.substring_ascii(c, d);
    assert(tok@ == second_token(line@));
    let tok_len = tok.unicode_len();
    let q = scan_to_exec(tok, 0, '?');
    if q >= tok_len {
        return RedirectOutcome::CodeMissing;
    }
    let q2 = scan_to_exec(tok, q + 1, '?');
    let qs = tok.substring_ascii(q + 1, q2);
    match find_code_exec(qs, 0) {
        Some(code) => RedirectOutcome::Code(code),
        None => {
            match find_error_exec(qs, 0) {
                Some(reason) => RedirectOutcome::ProviderDenied(reason),
                None => RedirectOutcome::CodeMissing,
            }
        },
    }
}

} // verus!
