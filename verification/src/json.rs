use vstd::prelude::*;

verus! {

use vstd::string::StrSliceExecFns;
use vstd::string::StringExecFns;
use crate::percent::hex_value;
use crate::percent::is_hex_digit;
use crate::token::TokenRecordSpec;
use crate::token::TokenResponse;

// The token endpoint answers with one JSON object: string keys, and
// values that are strings, unsigned integers of at most 18 digits, `true`,
// `false` or `null`. A member the record does not use may instead hold a
// nested object or array, which is skipped unread (nesting bounded by
// `NEST_DEPTH`). Strings know the simple escapes and `\u` escapes of
// ASCII code points; the decoder is ASCII-only throughout, as the token
// record's fields are, so a body with other characters is malformed here.
// A key that occurs twice keeps its first value; later occurrences are
// ignored rather than rejected.

/// JSON whitespace.
pub open spec fn json_ws(c: char) -> bool {
    c == ' ' || c == '\t' || c == '\n' || c == '\r'
}

/// First position at or after `i` that does not hold JSON whitespace.
pub open spec fn skip_ws(s: Seq<char>, i: int) -> int
    decreases s.len() - i,
{
    if 0 <= i < s.len() && json_ws(s[i]) {
        skip_ws(s, i + 1)
    } else {
        i
    }
}

/// The character a simple escape stands for, if the letter is one.
pub open spec fn esc_char(c: char) -> Option<char> {
    if c == '"' {
        Some('"')
    } else if c == '\\' {
        Some('\\')
    } else if c == '/' {
        Some('/')
    } else if c == 'b' {
        Some((8 as u8) as char)
    } else if c == 'f' {
        Some((12 as u8) as char)
    } else if c == 'n' {
        Some('\n')
    } else if c == 'r' {
        Some('\r')
    } else if c == 't' {
        Some('\t')
    } else {
        None
    }
}

/// Four hexadecimal digits written at `j`.
pub open spec fn u_escape_at(s: Seq<char>, j: int) -> bool {
    &&& 0 <= j
    &&& j + 4 <= s.len()
    &&& is_hex_digit(s[j])
    &&& is_hex_digit(s[j + 1])
    &&& is_hex_digit(s[j + 2])
    &&& is_hex_digit(s[j + 3])
}

/// The code point four hexadecimal digits at `j` denote.
pub open spec fn u_escape_val(s: Seq<char>, j: int) -> int
    recommends
        u_escape_at(s, j),
{
    hex_value(s[j]) * 4096 + hex_value(s[j + 1]) * 256 + hex_value(s[j + 2]) * 16 + hex_value(
        s[j + 3],
    )
}

/// Parse a string body beginning at `i`, just after the opening quote;
/// yields the text and the position after the closing quote. A `\u`
/// escape must denote an ASCII code point.
pub open spec fn parse_string_body(s: Seq<char>, i: int) -> Option<(Seq<char>, int)>
    decreases s.len() - i,
{
    if !(0 <= i < s.len()) {
        None
    } else if s[i] == '"' {
        Some((Seq::<char>::empty(), i + 1))
    } else if s[i] == '\\' {
        if i + 1 < s.len() && s[i + 1] == 'u' {
            if u_escape_at(s, i + 2) && u_escape_val(s, i + 2) < 128 {
                match parse_string_body(s, i + 6) {
                    Some(t) => Some((seq![((u_escape_val(s, i + 2)) as u8) as char] + t.0, t.1)),
                    None => None,
                }
            } else {
                None
            }
        } else if i + 1 < s.len() && esc_char(s[i + 1]) is Some {
            match parse_string_body(s, i + 2) {
                Some(t) => Some((seq![esc_char(s[i + 1])->Some_0] + t.0, t.1)),
                None => None,
            }
        } else {
            None
        }
    } else {
        match parse_string_body(s, i + 1) {
            Some(t) => Some((seq![s[i]] + t.0, t.1)),
            None => None,
        }
    }
}

/// Decimal digit.
pub open spec fn is_digit(c: char) -> bool {
    '0' <= c && c <= '9'
}

/// First position at or after `i` that does not hold a digit.
pub open spec fn digits_end(s: Seq<char>, i: int) -> int
    decreases s.len() - i,
{
    if 0 <= i < s.len() && is_digit(s[i]) {
        digits_end(s, i + 1)
    } else {
        i
    }
}

/// Value of the digit run from `i` up to `e`.
pub open spec fn digits_value(s: Seq<char>, i: int, e: int) -> int
    decreases e - i,
{
    if i >= e {
        0
    } else {
        digits_value(s, i, e - 1) * 10 + ((s[e - 1] as u8) - 48)
    }
}

/// Powers of ten.
pub open spec fn pow10(n: nat) -> nat
    decreases n,
{
    if n == 0 {
        1
    } else {
        10 * pow10((n - 1) as nat)
    }
}

/// Parse an unsigned integer of at most 18 digits beginning at `i`.
pub open spec fn parse_uint(s: Seq<char>, i: int) -> Option<(u64, int)> {
    if 0 <= i < s.len() && is_digit(s[i]) {
        let e = digits_end(s, i);
        if e - i <= 18 {
            Some((digits_value(s, i, e) as u64, e))
        } else {
            None
        }
    } else {
        None
    }
}

/// One scalar member value.
pub enum Scalar {
    SStr(String),
    SUInt(u64),
    SBool(bool),
    SNull,
    SNested,
}

/// A scalar at the specification level.
pub enum ScalarSpec {
    SStr(Seq<char>),
    SUInt(u64),
    SBool(bool),
    SNull,
    SNested,
}

impl View for Scalar {
    type V = ScalarSpec;

    open spec fn view(&self) -> ScalarSpec {
        match self {
            Scalar::SStr(s) => ScalarSpec::SStr(s@),
            Scalar::SUInt(n) => ScalarSpec::SUInt(*n),
            Scalar::SBool(b) => ScalarSpec::SBool(*b),
            Scalar::SNull => ScalarSpec::SNull,
            Scalar::SNested => ScalarSpec::SNested,
        }
    }
}

/// `true` written at `i`.
pub open spec fn true_at(s: Seq<char>, i: int) -> bool {
    &&& 0 <= i
    &&& i + 4 <= s.len()
    &&& s[i] == 't'
    &&& s[i + 1] == 'r'
    &&& s[i + 2] == 'u'
    &&& s[i + 3] == 'e'
}

/// `false` written at `i`.
pub open spec fn false_at(s: Seq<char>, i: int) -> bool {
    &&& 0 <= i
    &&& i + 5 <= s.len()
    &&& s[i] == 'f'
    &&& s[i + 1] == 'a'
    &&& s[i + 2] == 'l'
    &&& s[i + 3] == 's'
    &&& s[i + 4] == 'e'
}

/// `null` written at `i`.
pub open spec fn null_at(s: Seq<char>, i: int) -> bool {
    &&& 0 <= i
    &&& i + 4 <= s.len()
    &&& s[i] == 'n'
    &&& s[i + 1] == 'u'
    &&& s[i + 2] == 'l'
    &&& s[i + 3] == 'l'
}

/// Parse one scalar value beginning at `i`.
pub open spec fn parse_scalar(s: Seq<char>, i: int) -> Option<(ScalarSpec, int)> {
    if !(0 <= i < s.len()) {
        None
    } else if s[i] == '"' {
        match parse_string_body(s, i + 1) {
            Some(t) => Some((ScalarSpec::SStr(t.0), t.1)),
            None => None,
        }
    } else if is_digit(s[i]) {
        match parse_uint(s, i) {
            Some(t) => Some((ScalarSpec::SUInt(t.0), t.1)),
            None => None,
        }
    } else if true_at(s, i) {
        Some((ScalarSpec::SBool(true), i + 4))
    } else if false_at(s, i) {
        Some((ScalarSpec::SBool(false), i + 5))
    } else if null_at(s, i) {
        Some((ScalarSpec::SNull, i + 4))
    } else {
        None
    }
}

/// How deeply a skipped member's nesting may go.
pub const NEST_DEPTH: u32 = 32;

/// Skip one value beginning at `i` without keeping it: a scalar, or an
/// object or array whose nesting goes at most `d` levels further; yields
/// the position after it.
pub open spec fn skip_value(s: Seq<char>, i: int, d: nat) -> Option<int>
    decreases d, s.len() - i, 0int,
{
    if !(0 <= i < s.len()) {
        None
    } else if s[i] == '"' {
        match parse_string_body(s, i + 1) {
            Some(t) => Some(t.1),
            None => None,
        }
    } else if is_digit(s[i]) {
        match parse_uint(s, i) {
            Some(t) => Some(t.1),
            None => None,
        }
    } else if true_at(s, i) {
        Some(i + 4)
    } else if false_at(s, i) {
        Some(i + 5)
    } else if null_at(s, i) {
        Some(i + 4)
    } else if s[i] == '{' {
        if d == 0 {
            None
        } else {
            let j = skip_ws(s, i + 1);
            if j < s.len() && s[j] == '}' {
                Some(j + 1)
            } else {
                skip_members_rest(s, j, (d - 1) as nat)
            }
        }
    } else if s[i] == '[' {
        if d == 0 {
            None
        } else {
            let j = skip_ws(s, i + 1);
            if j < s.len() && s[j] == ']' {
                Some(j + 1)
            } else {
                skip_elements(s, j, (d - 1) as nat)
            }
        }
    } else {
        None
    }
}

/// Skip the members of an object from `i`, which must stand on the
/// opening quote of a key, and the closing brace.
pub open spec fn skip_members_rest(s: Seq<char>, i: int, d: nat) -> Option<int>
    decreases d, s.len() - i, 1int,
{
    if !(0 <= i < s.len()) || s[i] != '"' {
        None
    } else {
        match parse_string_body(s, i + 1) {
            None => None,
            Some(kt) => {
                let j2 = skip_ws(s, kt.1);
                if j2 < s.len() && s[j2] == ':' {
                    let j3 = skip_ws(s, j2 + 1);
                    if i <= j3 <= s.len() {
                        match skip_value(s, j3, d) {
                            None => None,
                            Some(j4) => {
                                let j5 = skip_ws(s, j4);
                                if j5 < s.len() && s[j5] == ',' {
                                    let j6 = skip_ws(s, j5 + 1);
                                    if i < j6 <= s.len() {
                                        skip_members_rest(s, j6, d)
                                    } else {
                                        None
                                    }
                                } else if j5 < s.len() && s[j5] == '}' {
                                    Some(j5 + 1)
                                } else {
                                    None
                                }
                            },
                        }
                    } else {
                        None
                    }
                } else {
                    None
                }
            },
        }
    }
}

/// Skip the elements of an array from `i`, which must stand on the first
/// element, and the closing bracket.
pub open spec fn skip_elements(s: Seq<char>, i: int, d: nat) -> Option<int>
    decreases d, s.len() - i, 1int,
{
    if !(0 <= i <= s.len()) {
        None
    } else {
        match skip_value(s, i, d) {
            None => None,
            Some(j) => {
                let j2 = skip_ws(s, j);
                if j2 < s.len() && s[j2] == ',' {
                    let j3 = skip_ws(s, j2 + 1);
                    if i < j3 <= s.len() {
                        skip_elements(s, j3, d)
                    } else {
                        None
                    }
                } else if j2 < s.len() && s[j2] == ']' {
                    Some(j2 + 1)
                } else {
                    None
                }
            },
        }
    }
}

/// Parse the value of one member: a scalar kept as it is, or a nested
/// object or array, skipped and kept only as the fact that it was there.
pub open spec fn parse_member_value(s: Seq<char>, i: int) -> Option<(ScalarSpec, int)> {
    if 0 <= i < s.len() && (s[i] == '{' || s[i] == '[') {
        match skip_value(s, i, NEST_DEPTH as nat) {
            Some(j) => Some((ScalarSpec::SNested, j)),
            None => None,
        }
    } else {
        parse_scalar(s, i)
    }
}

/// Parse the members of the object from `i`, which must stand on the
/// opening quote of a key; yields the members in order and the position of
/// the first character after them.
pub open spec fn parse_members(s: Seq<char>, i: int) -> Option<
    (Seq<(Seq<char>, ScalarSpec)>, int),
>
    decreases s.len() - i,
{
    if !(0 <= i < s.len()) {
        None
    } else if s[i] != '"' {
        None
    } else {
        match parse_string_body(s, i + 1) {
            None => None,
            Some(kt) => {
                let j2 = skip_ws(s, kt.1);
                if j2 < s.len() && s[j2] == ':' {
                    let j3 = skip_ws(s, j2 + 1);
                    match parse_member_value(s, j3) {
                        None => None,
                        Some(vt) => {
                            let j5 = skip_ws(s, vt.1);
                            if j5 < s.len() && s[j5] == ',' {
                                let j6 = skip_ws(s, j5 + 1);
                                if i < j6 <= s.len() {
                                    match parse_members(s, j6) {
                                        None => None,
                                        Some(mt) => Some(
                                            (seq![(kt.0, vt.0)] + mt.0, mt.1),
                                        ),
                                    }
                                } else {
                                    None
                                }
                            } else {
                                Some((seq![(kt.0, vt.0)], j5))
                            }
                        },
                    }
                } else {
                    None
                }
            },
        }
    }
}

/// Parse a whole object: optional whitespace, `{`, members or nothing,
/// `}`, optional whitespace, end of input.
pub open spec fn parse_token_members(s: Seq<char>) -> Option<Seq<(Seq<char>, ScalarSpec)>> {
    let i0 = skip_ws(s, 0);
    if i0 < s.len() && s[i0] == '{' {
        let i1 = skip_ws(s, i0 + 1);
        if i1 < s.len() && s[i1] == '}' {
            if skip_ws(s, i1 + 1) == s.len() {
                Some(Seq::<(Seq<char>, ScalarSpec)>::empty())
            } else {
                None
            }
        } else {
            match parse_members(s, i1) {
                None => None,
                Some(mt) => {
                    if 0 <= mt.1 < s.len() && s[mt.1] == '}' && skip_ws(s, mt.1 + 1) == s.len() {
                        Some(mt.0)
                    } else {
                        None
                    }
                },
            }
        }
    } else {
        None
    }
}

/// First member with the given key, if any.
pub open spec fn find_member(ms: Seq<(Seq<char>, ScalarSpec)>, key: Seq<char>) -> Option<
    ScalarSpec,
>
    decreases ms.len(),
{
    if ms.len() == 0 {
        None
    } else if ms[0].0 == key {
        Some(ms[0].1)
    } else {
        find_member(ms.skip(1), key)
    }
}

/// An optional string field: absent or `null` means none, a string means
/// that string, anything else is a shape error.
pub open spec fn opt_str_field(o: Option<ScalarSpec>) -> Option<Option<Seq<char>>> {
    match o {
        None => Some(None),
        Some(ScalarSpec::SNull) => Some(None),
        Some(ScalarSpec::SStr(s)) => Some(Some(s)),
        Some(_) => None,
    }
}

/// The record the members denote: `access_token` and `token_type` must be
/// strings, `expires_in` an integer that fits 32 bits, `refresh_token` and
/// `scope` optional strings; other members are ignored.
pub open spec fn token_of_members(ms: Seq<(Seq<char>, ScalarSpec)>) -> Option<TokenRecordSpec> {
    match find_member(ms, "access_token"@) {
        Some(ScalarSpec::SStr(access)) => match find_member(ms, "token_type"@) {
            Some(ScalarSpec::SStr(ttype)) => match find_member(ms, "expires_in"@) {
                Some(ScalarSpec::SUInt(n)) => {
                    if n <= u32::MAX {
                        match opt_str_field(find_member(ms, "refresh_token"@)) {
                            Some(refresh) => match opt_str_field(find_member(ms, "scope"@)) {
                                Some(scope) => Some(
                                    TokenRecordSpec {
                                        access_token: access,
                                        refresh_token: refresh,
                                        expires_in: n as u32,
                                        token_type: ttype,
                                        scope: scope,
                                    },
                                ),
                                None => None,
                            },
                            None => None,
                        }
                    } else {
                        None
                    }
                },
                _ => None,
            },
            _ => None,
        },
        _ => None,
    }
}

/// What a token-endpoint body decodes to, if it is well formed.
pub open spec fn parse_token_json(s: Seq<char>) -> Option<TokenRecordSpec> {
    match parse_token_members(s) {
        Some(ms) => token_of_members(ms),
        None => None,
    }
}

/// View of the members a parse returns.
pub open spec fn members_view(v: Seq<(String, Scalar)>) -> Seq<(Seq<char>, ScalarSpec)> {
    v.map_values(|p: (String, Scalar)| (p.0@, p.1@))
}

fn skip_ws_exec(s: &str, i: usize) -> (j: usize)
    requires
        i <= s@.len(),
    ensures
        j == skip_ws(s@, i as int),
        i <= j <= s@.len(),
    decreases s@.len() - i,
{
    let n = s.unicode_len();
    if i < n {
        let c = s.get_char(i);
        if c == ' ' || c == '\t' || c == '\n' || c == '\r' {
            return skip_ws_exec(s, i + 1);
        }
    }
    i
}

fn esc_char_exec(c: char) -> (r: Option<char>)
    ensures
        r == esc_char(c),
{
    let bs: u8 = 8;
    let ff: u8 = 12;
    if c == '"' {
        Some('"')
    } else if c == '\\' {
        Some('\\')
    } else if c == '/' {
        Some('/')
    } else if c == 'b' {
        Some(bs as char)
    } else if c == 'f' {
        Some(ff as char)
    } else if c == 'n' {
        Some('\n')
    } else if c == 'r' {
        Some('\r')
    } else if c == 't' {
        Some('\t')
    } else {
        None
    }
}

fn parse_string_body_exec(s: &str, i: usize) -> (r: Option<(Vec<u8>, usize)>)
    requires
        s.is_ascii(),
        i <= s@.len(),
    ensures
        r is Some <==> parse_string_body(s@, i as int) is Some,
        r matches Some(t) ==> {
            &&& forall|j: int| 0 <= j < t.0@.len() ==> t.0@[j] < 128
            &&& Some((t.0@.map_values(|b: u8| b as char), t.1 as int)) == parse_string_body(
                s@,
                i as int,
            )
            &&& i < t.1 <= s@.len()
        },
    decreases s@.len() - i,
{
    let n = s.unicode_len();
    if i >= n {
        return None;
    }
    let c = s.get_char(i);
    if c == '"' {
        let v: Vec<u8> = Vec::new();
        assert(v@.map_values(|b: u8| b as char) =~= Seq::<char>::empty());
        Some((v, i + 1))
    } else if c == '\\' {
        if i + 1 < n {
            let c1 = s.get_char(i + 1);
            if c1 == 'u' {
                if n - i > 5 {
                    let h0 = crate::percent::hex_value_exec(s.get_char(i + 2));
                    let h1 = crate::percent::hex_value_exec(s.get_char(i + 3));
                    let h2 = crate::percent::hex_value_exec(s.get_char(i + 4));
                    let h3 = crate::percent::hex_value_exec(s.get_char(i + 5));
                    match (h0, h1, h2, h3) {
                        (Some(d0), Some(d1), Some(d2), Some(d3)) => {
                            assert(u_escape_at(s@, i + 2));
                            let v32: u32 = (d0 as u32) * 4096 + (d1 as u32) * 256 + (d2 as u32)
                                * 16 + (d3 as u32);
                            assert(v32 == u_escape_val(s@, i + 2));
                            if v32 < 128 {
                                match parse_string_body_exec(s, i + 6) {
                                    Some((mut v, j)) => {
                                        let vb = v32 as u8;
                                        v.insert(0, vb);
                                        assert(v@.map_values(|x: u8| x as char) =~= seq![
                                            (vb) as char,
                                        ] + v@.skip(1).map_values(|x: u8| x as char));
                                        assert(v@.skip(1) =~= v@.subrange(1, v@.len() as int));
                                        return Some((v, j));
                                    },
                                    None => {
                                        return None;
                                    },
                                }
                            } else {
                                return None;
                            }
                        },
                        _ => {
                            assert(!u_escape_at(s@, i + 2));
                            return None;
                        },
                    }
                } else {
                    assert(!u_escape_at(s@, i + 2));
                    return None;
                }
            }
            match esc_char_exec(c1) {
                Some(ec) => {
                    match parse_string_body_exec(s, i + 2) {
                        Some((mut v, j)) => {
                            assert(ec <= '\u{7f}');
                            let eb = ec as u8;
                            assert((eb as char) == ec);
                            v.insert(0, eb);
                            assert(v@.map_values(|x: u8| x as char) =~= seq![ec]
                                + v@.skip(1).map_values(|x: u8| x as char));
                            assert(v@.skip(1) =~= v@.subrange(1, v@.len() as int));
                            Some((v, j))
                        },
                        None => None,
                    }
                },
                None => None,
            }
        } else {
            None
        }
    } else {
        match parse_string_body_exec(s, i + 1) {
            Some((mut v, j)) => {
                assert(c <= '\u{7f}');
                let cb = c as u8;
                assert((cb as char) == c);
                v.insert(0, cb);
                assert(v@.map_values(|x: u8| x as char) =~= seq![c] + v@.skip(1).map_values(
                    |x: u8| x as char,
                ));
                assert(v@.skip(1) =~= v@.subrange(1, v@.len() as int));
                Some((v, j))
            },
            None => None,
        }
    }
}

fn digits_end_exec(s: &str, i: usize) -> (j: usize)
    requires
        i <= s@.len(),
    ensures
        j == digits_end(s@, i as int),
        i <= j <= s@.len(),
    decreases s@.len() - i,
{
    let n = s.unicode_len();
    if i < n {
        let c = s.get_char(i);
        if '0' <= c && c <= '9' {
            return digits_end_exec(s, i + 1);
        }
    }
    i
}

proof fn lemma_digits_range(s: Seq<char>, i: int)
    requires
        0 <= i <= s.len(),
    ensures
        i <= digits_end(s, i) <= s.len(),
        forall|j: int| i <= j < digits_end(s, i) ==> is_digit(s[j]),
    decreases s.len() - i,
{
    if 0 <= i < s.len() && is_digit(s[i]) {
        lemma_digits_range(s, i + 1);
    }
}

proof fn lemma_pow10_pos(a: nat)
    ensures
        pow10(a) >= 1,
    decreases a,
{
    if a > 0 {
        lemma_pow10_pos((a - 1) as nat);
    }
}

proof fn lemma_pow10_mono(a: nat, b: nat)
    requires
        a <= b,
    ensures
        pow10(a) <= pow10(b),
        pow10(a) >= 1,
    decreases b,
{
    lemma_pow10_pos(a);
    if a < b {
        lemma_pow10_mono(a, (b - 1) as nat);
        lemma_pow10_pos((b - 1) as nat);
    }
}

proof fn lemma_digits_value_bound(s: Seq<char>, i: int, e: int)
    requires
        0 <= i <= e <= s.len(),
        forall|j: int| i <= j < e ==> is_digit(s[j]),
    ensures
        0 <= digits_value(s, i, e) < pow10((e - i) as nat),
    decreases e - i,
{
    if i >= e {
        assert(pow10(0) == 1);
    } else {
        lemma_digits_value_bound(s, i, e - 1);
        assert(is_digit(s[e - 1]));
        assert((s[e - 1] as u8) - 48 <= 9);
        assert(pow10((e - i) as nat) == 10 * pow10((e - 1 - i) as nat));
    }
}

fn parse_uint_exec(s: &str, i: usize) -> (r: Option<(u64, usize)>)
    requires
        i <= s@.len(),
    ensures
        r is Some <==> parse_uint(s@, i as int) is Some,
        r matches Some(t) ==> Some((t.0, t.1 as int)) == parse_uint(s@, i as int) && i < t.1
            <= s@.len(),
{
    let n = s.unicode_len();
    if i >= n {
        return None;
    }
    let c0 = s.get_char(i);
    if !('0' <= c0 && c0 <= '9') {
        return None;
    }
    let e = digits_end_exec(s, i);
    proof {
        lemma_digits_range(s@, i as int);
        assert(digits_end(s@, i as int) == digits_end(s@, i + 1));
        lemma_digits_range(s@, i + 1);
        assert(e > i);
    }
    if e - i > 18 {
        return None;
    }
    let ghost se: int = e as int;
    let mut acc: u64 = 0;
    let mut k: usize = i;
    proof {
        reveal_with_fuel(pow10, 20);
        assert(pow10(18) == 1000000000000000000) by {
            reveal_with_fuel(pow10, 20);
        }
    }
    while k < e
        invariant
            i <= k <= e <= s@.len(),
            e as int == se,
            se == digits_end(s@, i as int),
            se - i <= 18,
            forall|j: int| i <= j < se ==> is_digit(s@[j]),
            acc == digits_value(s@, i as int, k as int),
            acc < pow10((k - i) as nat),
        decreases e - k,
    {
        proof {
            lemma_pow10_mono(((k - i) as nat), 17);
            assert(pow10(17) == 100000000000000000) by {
                reveal_with_fuel(pow10, 20);
            }
        }
        let c = s.get_char(k);
        assert(is_digit(c));
        let cb = c as u8;
        assert((cb as char) == c);
        let d = cb - 48;
        assert(d <= 9);
        acc = acc * 10 + (d as u64);
        proof {
            assert(pow10(((k + 1) - i) as nat) == 10 * pow10((k - i) as nat));
        }
        k = k + 1;
    }
    proof {
        lemma_digits_value_bound(s@, i as int, se);
        lemma_pow10_mono(((se - i) as nat), 18);
        assert(pow10(18) == 1000000000000000000) by {
            reveal_with_fuel(pow10, 20);
        }
        assert(digits_value(s@, i as int, se) == acc);
        assert((digits_value(s@, i as int, se) as u64) == acc);
    }
    Some((acc, e))
}

fn parse_scalar_exec(s: &str, i: usize) -> (r: Option<(Scalar, usize)>)
    requires
        s.is_ascii(),
        i <= s@.len(),
    ensures
        r is Some <==> parse_scalar(s@, i as int) is Some,
        r matches Some(t) ==> Some((t.0@, t.1 as int)) == parse_scalar(s@, i as int) && i < t.1
            <= s@.len(),
{
    let n = s.unicode_len();
    if i >= n {
        return None;
    }
    let c = s.get_char(i);
    if c == '"' {
        match parse_string_body_exec(s, i + 1) {
            Some((vb, j)) => {
                let v = crate::percent::ascii_string(vb);
                Some((Scalar::SStr(v), j))
            },
            None => None,
        }
    } else if '0' <= c && c <= '9' {
        assert(is_digit(c));
        match parse_uint_exec(s, i) {
            Some((v, j)) => Some((Scalar::SUInt(v), j)),
            None => None,
        }
    } else if c == 't' {
        if n - i >= 4 && s.get_char(i + 1) == 'r' && s.get_char(i + 2) == 'u' && s.get_char(i + 3)
            == 'e' {
            assert(true_at(s@, i as int));
            Some((Scalar::SBool(true), i + 4))
        } else {
            assert(!true_at(s@, i as int));
            None
        }
    } else if c == 'f' {
        if n - i >= 5 && s.get_char(i + 1) == 'a' && s.get_char(i + 2) == 'l' && s.get_char(i + 3)
            == 's' && s.get_char(i + 4) == 'e' {
            assert(false_at(s@, i as int));
            Some((Scalar::SBool(false), i + 5))
        } else {
            assert(!false_at(s@, i as int));
            None
        }
    } else if c == 'n' {
        if n - i >= 4 && s.get_char(i + 1) == 'u' && s.get_char(i + 2) == 'l' && s.get_char(i + 3)
            == 'l' {
            assert(null_at(s@, i as int));
            Some((Scalar::SNull, i + 4))
        } else {
            assert(!null_at(s@, i as int));
            None
        }
    } else {
        None
    }
}

fn skip_value_exec(s: &str, i: usize, d: u32) -> (r: Option<usize>)
    requires
        s.is_ascii(),
        i <= s@.len(),
    ensures
        r is Some <==> skip_value(s@, i as int, d as nat) is Some,
        r matches Some(j) ==> Some(j as int) == skip_value(s@, i as int, d as nat) && i < j
            <= s@.len(),
    decreases d, s@.len() - i, 0int,
{
    let n = s.unicode_len();
    if i >= n {
        return None;
    }
    let c = s.get_char(i);
    if c == '"' {
        match parse_string_body_exec(s, i + 1) {
            Some((_v, j)) => Some(j),
            None => None,
        }
    } else if '0' <= c && c <= '9' {
        assert(is_digit(c));
        match parse_uint_exec(s, i) {
            Some((_v, j)) => Some(j),
            None => None,
        }
    } else if c == 't' {
        if n - i >= 4 && s.get_char(i + 1) == 'r' && s.get_char(i + 2) == 'u' && s.get_char(i + 3)
            == 'e' {
            assert(true_at(s@, i as int));
            Some(i + 4)
        } else {
            assert(!true_at(s@, i as int));
            None
        }
    } else if c == 'f' {
        if n - i >= 5 && s.get_char(i + 1) == 'a' && s.get_char(i + 2) == 'l' && s.get_char(i + 3)
            == 's' && s.get_char(i + 4) == 'e' {
            assert(false_at(s@, i as int));
            Some(i + 5)
        } else {
            assert(!false_at(s@, i as int));
            None
        }
    } else if c == 'n' {
        if n - i >= 4 && s.get_char(i + 1) == 'u' && s.get_char(i + 2) == 'l' && s.get_char(i + 3)
            == 'l' {
            assert(null_at(s@, i as int));
            Some(i + 4)
        } else {
            assert(!null_at(s@, i as int));
            None
        }
    } else if c == '{' {
        if d == 0 {
            None
        } else {
            let j = skip_ws_exec(s, i + 1);
            if j < n && s.get_char(j) == '}' {
                Some(j + 1)
            } else {
                skip_members_rest_exec(s, j, d - 1)
            }
        }
    } else if c == '[' {
        if d == 0 {
            None
        } else {
            let j = skip_ws_exec(s, i + 1);
            if j < n && s.get_char(j) == ']' {
                Some(j + 1)
            } else {
                skip_elements_exec(s, j, d - 1)
            }
        }
    } else {
        None
    }
}

fn skip_members_rest_exec(s: &str, i: usize, d: u32) -> (r: Option<usize>)
    requires
        s.is_ascii(),
        i <= s@.len(),
    ensures
        r is Some <==> skip_members_rest(s@, i as int, d as nat) is Some,
        r matches Some(j) ==> Some(j as int) == skip_members_rest(s@, i as int, d as nat) && i < j
            <= s@.len(),
    decreases d, s@.len() - i, 1int,
{
    let n = s.unicode_len();
    if i >= n {
        return None;
    }
    if s.get_char(i) != '"' {
        return None;
    }
    match parse_string_body_exec(s, i + 1) {
        None => None,
        Some((_k, j)) => {
            let j2 = skip_ws_exec(s, j);
            if j2 < n && s.get_char(j2) == ':' {
                let j3 = skip_ws_exec(s, j2 + 1);
                if i <= j3 {
                    match skip_value_exec(s, j3, d) {
                        None => None,
                        Some(j4) => {
                            let j5 = skip_ws_exec(s, j4);
                            if j5 < n && s.get_char(j5) == ',' {
                                let j6 = skip_ws_exec(s, j5 + 1);
                                if i < j6 {
                                    skip_members_rest_exec(s, j6, d)
                                } else {
                                    None
                                }
                            } else if j5 < n && s.get_char(j5) == '}' {
                                Some(j5 + 1)
                            } else {
                                None
                            }
                        },
                    }
                } else {
                    None
                }
            } else {
                None
            }
        },
    }
}

fn skip_elements_exec(s: &str, i: usize, d: u32) -> (r: Option<usize>)
    requires
        s.is_ascii(),
        i <= s@.len(),
    ensures
        r is Some <==> skip_elements(s@, i as int, d as nat) is Some,
        r matches Some(j) ==> Some(j as int) == skip_elements(s@, i as int, d as nat) && i < j
            <= s@.len(),
    decreases d, s@.len() - i, 1int,
{
    let n = s.unicode_len();
    match skip_value_exec(s, i, d) {
        None => None,
        Some(j) => {
            let j2 = skip_ws_exec(s, j);
            if j2 < n && s.get_char(j2) == ',' {
                let j3 = skip_ws_exec(s, j2 + 1);
                if i < j3 {
                    skip_elements_exec(s, j3, d)
                } else {
                    None
                }
            } else if j2 < n && s.get_char(j2) == ']' {
                Some(j2 + 1)
            } else {
                None
            }
        },
    }
}

fn parse_member_value_exec(s: &str, i: usize) -> (r: Option<(Scalar, usize)>)
    requires
        s.is_ascii(),
        i <= s@.len(),
    ensures
        r is Some <==> parse_member_value(s@, i as int) is Some,
        r matches Some(t) ==> Some((t.0@, t.1 as int)) == parse_member_value(s@, i as int) && i
            < t.1 <= s@.len(),
{
    let n = s.unicode_len();
    if i < n {
        let c = s.get_char(i);
        if c == '{' || c == '[' {
            return match skip_value_exec(s, i, NEST_DEPTH) {
                Some(j) => Some((Scalar::SNested, j)),
                None => None,
            };
        }
    }
    parse_scalar_exec(s, i)
}

fn parse_members_exec(s: &str, i: usize) -> (r: Option<(Vec<(String, Scalar)>, usize)>)
    requires
        s.is_ascii(),
        i <= s@.len(),
    ensures
        r is Some <==> parse_members(s@, i as int) is Some,
        r matches Some(t) ==> Some((members_view(t.0@), t.1 as int)) == parse_members(
            s@,
            i as int,
        ) && t.1 <= s@.len(),
    decreases s@.len() - i,
{
    let n = s.unicode_len();
    if i >= n {
        return None;
    }
    if s.get_char(i) != '"' {
        return None;
    }
    match parse_string_body_exec(s, i + 1) {
        None => None,
        Some((kb, j)) => {
            let j2 = skip_ws_exec(s, j);
            if j2 < n && s.get_char(j2) == ':' {
                let j3 = skip_ws_exec(s, j2 + 1);
                match parse_member_value_exec(s, j3) {
                    None => None,
                    Some((v, j4)) => {
                        let j5 = skip_ws_exec(s, j4);
                        if j5 < n && s.get_char(j5) == ',' {
                            let j6 = skip_ws_exec(s, j5 + 1);
                            if i < j6 {
                                match parse_members_exec(s, j6) {
                                    None => None,
                                    Some((mut mv, j7)) => {
                                        let key = crate::percent::ascii_string(kb);
                                        mv.insert(0, (key, v));
                                        assert(members_view(mv@) =~= seq![
                                            (kb@.map_values(|b: u8| b as char), v@),
                                        ] + members_view(mv@.skip(1)));
                                        assert(mv@.skip(1) =~= mv@.subrange(
                                            1,
                                            mv@.len() as int,
                                        ));
                                        Some((mv, j7))
                                    },
                                }
                            } else {
                                None
                            }
                        } else {
                            let key = crate::percent::ascii_string(kb);
                            let mut mv: Vec<(String, Scalar)> = Vec::new();
                            mv.push((key, v));
                            assert(members_view(mv@) =~= seq![
                                (kb@.map_values(|b: u8| b as char), v@),
                            ]);
                            Some((mv, j5))
                        }
                    },
                }
            } else {
                None
            }
        },
    }
}

fn parse_token_members_exec(s: &str) -> (r: Option<Vec<(String, Scalar)>>)
    requires
        s.is_ascii(),
    ensures
        r is Some <==> parse_token_members(s@) is Some,
        r matches Some(v) ==> Some(members_view(v@)) == parse_token_members(s@),
{
    let n = s.unicode_len();
    let i0 = skip_ws_exec(s, 0);
    if i0 < n && s.get_char(i0) == '{' {
        let i1 = skip_ws_exec(s, i0 + 1);
        if i1 < n && s.get_char(i1) == '}' {
            if skip_ws_exec(s, i1 + 1) == n {
                let v: Vec<(String, Scalar)> = Vec::new();
                assert(members_view(v@) =~= Seq::<(Seq<char>, ScalarSpec)>::empty());
                Some(v)
            } else {
                None
            }
        } else {
            match parse_members_exec(s, i1) {
                None => None,
                Some((mv, j)) => {
                    if j < n && s.get_char(j) == '}' {
                        if skip_ws_exec(s, j + 1) == n {
                            Some(mv)
                        } else {
                            None
                        }
                    } else {
                        None
                    }
                },
            }
        }
    } else {
        None
    }
}

fn find_member_ref<'a>(ms: &'a Vec<(String, Scalar)>, key: &String, i: usize) -> (r: Option<
    &'a Scalar,
>)
    requires
        i <= ms@.len(),
    ensures
        r is Some <==> find_member(members_view(ms@.skip(i as int)), key@) is Some,
        r matches Some(v) ==> Some(v@) == find_member(members_view(ms@.skip(i as int)), key@),
    decreases ms@.len() - i,
{
    if i == ms.len() {
        assert(members_view(ms@.skip(i as int)) =~= Seq::<(Seq<char>, ScalarSpec)>::empty());
        None
    } else {
        assert(members_view(ms@.skip(i as int)).len() > 0);
        assert(members_view(ms@.skip(i as int))[0] == (ms@[i as int].0@, ms@[i as int].1@));
        let entry = &ms[i];
        if entry.0 == *key {
            Some(&entry.1)
        } else {
            let r = find_member_ref(ms, key, i + 1);
            assert(members_view(ms@.skip(i as int)).skip(1) =~= members_view(
                ms@.skip(i + 1),
            ));
            r
        }
    }
}

fn opt_str_take(v: Option<&Scalar>) -> (r: Option<Option<String>>)
    ensures
        r is Some <==> opt_str_field(
            match v {
                Some(x) => Some(x@),
                None => None,
            },
        ) is Some,
        r matches Some(o) ==> Some(
            match o {
                Some(s) => Some(s@),
                None => None::<Seq<char>>,
            },
        ) == opt_str_field(
            match v {
                Some(x) => Some(x@),
                None => None,
            },
        ),
{
    match v {
        None => Some(None),
        Some(Scalar::SNull) => Some(None),
        Some(Scalar::SStr(s)) => Some(Some(s.clone())),
        Some(_) => None,
    }
}

fn token_of_members_exec(ms: Vec<(String, Scalar)>) -> (r: Option<TokenResponse>)
    ensures
        r is Some <==> token_of_members(members_view(ms@)) is Some,
        r matches Some(t) ==> Some(t@) == token_of_members(members_view(ms@)),
{
    proof {
        assert(ms@.skip(0) =~= ms@);
    }
    let key_access = String::from_str("access_token");
    let key_type = String::from_str("token_type");
    let key_expires = String::from_str("expires_in");
    let key_refresh = String::from_str("refresh_token");
    let key_scope = String::from_str("scope");
    let access = match find_member_ref(&ms, &key_access, 0) {
        Some(Scalar::SStr(s)) => s.clone(),
        _ => {
            return None;
        },
    };
    let ttype = match find_member_ref(&ms, &key_type, 0) {
        Some(Scalar::SStr(s)) => s.clone(),
        _ => {
            return None;
        },
    };
    let expires: u64 = match find_member_ref(&ms, &key_expires, 0) {
        Some(Scalar::SUInt(n)) => *n,
        _ => {
            return None;
        },
    };
    if expires > u32::MAX as u64 {
        return None;
    }
    let refresh = match opt_str_take(find_member_ref(&ms, &key_refresh, 0)) {
        Some(o) => o,
        None => {
            return None;
        },
    };
    let scope = match opt_str_take(find_member_ref(&ms, &key_scope, 0)) {
        Some(o) => o,
        None => {
            return None;
        },
    };
    Some(
        TokenResponse {
            access_token: access,
            refresh_token: refresh,
            expires_in: expires as u32,
            token_type: ttype,
            scope: scope,
        },
    )
}

/// Decode a token-endpoint body into a record; `None` exactly when the
/// body is outside the accepted grammar or its shape. A body that is not
/// ASCII is rejected.
pub fn decode_token_response(body: &str) -> (r: Option<TokenResponse>)
    ensures
        body.is_ascii() ==> {
            &&& r is Some <==> parse_token_json(body@) is Some
            &&& (r matches Some(t) ==> Some(t@) == parse_token_json(body@))
        },
        !body.is_ascii() ==> r is None,
{
    if !body.is_ascii() {
        return None;
    }
    match parse_token_members_exec(body) {
        Some(ms) => token_of_members_exec(ms),
        None => None,
    }
}

} // verus!
