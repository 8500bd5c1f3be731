use vstd::prelude::*;

verus! {

use vstd::utf8::is_ascii_chars;

/// Characters that the encoder passes through unchanged: ASCII letters,
/// digits, `-`, `_`, `.` and `~`.
pub open spec fn is_unreserved(c: char) -> bool {
    ('A' <= c && c <= 'Z') || ('a' <= c && c <= 'z') || ('0' <= c && c <= '9') || c == '-' || c
        == '_' || c == '.' || c == '~'
}

/// Upper-case hexadecimal digit for a value below 16.
pub open spec fn hex_upper(n: u8) -> char
    recommends
        n < 16,
{
    if n < 10 {
        ((48 + n) as u8) as char
    } else {
        ((55 + n) as u8) as char
    }
}

/// Whether `c` is a hexadecimal digit, either case.
pub open spec fn is_hex_digit(c: char) -> bool {
    ('0' <= c && c <= '9') || ('A' <= c && c <= 'F') || ('a' <= c && c <= 'f')
}

/// Numeric value of a hexadecimal digit.
pub open spec fn hex_value(c: char) -> u8
    recommends
        is_hex_digit(c),
{
    if '0' <= c && c <= '9' {
        (c as u8 - 48) as u8
    } else if 'A' <= c && c <= 'F' {
        (c as u8 - 55) as u8
    } else if 'a' <= c && c <= 'f' {
        (c as u8 - 87) as u8
    } else {
        0
    }
}

/// Percent-encoding of one ASCII character.
pub open spec fn enc_char(c: char) -> Seq<char>
    recommends
        c <= '\u{7f}',
{
    if is_unreserved(c) {
        seq![c]
    } else {
        seq!['%', hex_upper((c as u8) / 16), hex_upper((c as u8) % 16)]
    }
}

/// Percent-encoding of an ASCII character sequence: each unreserved
/// character stands for itself, every other one becomes `%` and two
/// upper-case hexadecimal digits.
pub open spec fn encode_spec(s: Seq<char>) -> Seq<char>
    decreases s.len(),
{
    if s.len() == 0 {
        Seq::<char>::empty()
    } else {
        enc_char(s[0]) + encode_spec(s.skip(1))
    }
}

/// Percent-decoding of an ASCII character sequence. A `%` must be followed
/// by two hexadecimal digits whose value is below 128; otherwise, and only
/// then, decoding fails. Every other character stands for itself. The
/// failure is deliberate strictness: a lenient decoder would pass a
/// malformed sequence through verbatim, where this one rejects the value,
/// so a decoded value is always exactly what the encoder was given.
pub open spec fn decode_spec(s: Seq<char>) -> Option<Seq<char>>
    decreases s.len(),
{
    if s.len() == 0 {
        Some(Seq::<char>::empty())
    } else if s[0] == '%' {
        if s.len() >= 3 && is_hex_digit(s[1]) && is_hex_digit(s[2]) && hex_value(s[1]) * 16
            + hex_value(s[2]) < 128 {
            match decode_spec(s.skip(3)) {
                Some(r) => Some(
                    seq![((hex_value(s[1]) * 16 + hex_value(s[2])) as u8) as char] + r,
                ),
                None => None,
            }
        } else {
            None
        }
    } else {
        match decode_spec(s.skip(1)) {
            Some(r) => Some(seq![s[0]] + r),
            None => None,
        }
    }
}

/// Relies on String::from_utf8_lossy: bytes below 128 decode to the
/// characters with the same code points, unchanged.
#[verifier::external_body]
pub(crate) fn ascii_string(v: Vec<u8>) -> (r: String)
    requires
        forall|i: int| 0 <= i < v@.len() ==> v@[i] < 128,
    ensures
        r@ == v@.map_values(|b: u8| b as char),
{
    String::from_utf8_lossy(v.as_slice()).into_owned()
}

fn hex_upper_exec(n: u8) -> (c: u8)
    requires
        n < 16,
    ensures
        c < 128,
        (c as char) == hex_upper(n),
{
    if n < 10 {
        48 + n
    } else {
        55 + n
    }
}

fn encode_bytes_from(s: &str, i: usize) -> (r: Vec<u8>)
    requires
        s.is_ascii(),
        i <= s@.len(),
    ensures
        forall|j: int| 0 <= j < r@.len() ==> r@[j] < 128,
        r@.map_values(|b: u8| b as char) == encode_spec(s@.skip(i as int)),
    decreases s@.len() - i,
{
    let n = s.unicode_len();
    if i == n {
        let r: Vec<u8> = Vec::new();
        assert(r@.map_values(|b: u8| b as char) =~= encode_spec(s@.skip(i as int)));
        r
    } else {
        let c = s.get_char(i);
        let mut rest = encode_bytes_from(s, i + 1);
        assert(s@.skip(i as int)[0] == c);
        assert(s@.skip(i as int).skip(1) =~= s@.skip(i + 1));
        assert(encode_spec(s@.skip(i as int)) == enc_char(c) + encode_spec(s@.skip(i + 1)));
        let cb = c as u8;
        if (48 <= cb && cb <= 57) || (65 <= cb && cb <= 90) || (97 <= cb && cb <= 122) || cb == 45
            || cb == 95 || cb == 46 || cb == 126 {
            assert(is_unreserved(c));
            rest.insert(0, cb);
            assert(rest@.map_values(|b: u8| b as char) =~= enc_char(c) + encode_spec(
                s@.skip(i + 1),
            ));
            rest
        } else {
            assert(!is_unreserved(c));
            let h1 = hex_upper_exec(cb / 16);
            let h2 = hex_upper_exec(cb % 16);
            rest.insert(0, h2);
            rest.insert(0, h1);
            rest.insert(0, 37);
            assert((37 as u8) as char == '%');
            assert(rest@.map_values(|b: u8| b as char) =~= enc_char(c) + encode_spec(
                s@.skip(i + 1),
            ));
            rest
        }
    }
}

/// Percent-encode an ASCII string, as the authorization URL requires of
/// each of its query parameters.
pub fn percent_encode(s: &str) -> (r: String)
    requires
        s.is_ascii(),
    ensures
        r@ == encode_spec(s@),
        r.is_ascii(),
{
    let bytes = encode_bytes_from(s, 0);
    assert(s@.skip(0) =~= s@);
    let r = ascii_string(bytes);
    assert(is_ascii_chars(r@)) by {
        assert(forall|i: int|
            0 <= i < r@.len() ==> '\0' <= #[trigger] r@[i] && r@[i] <= '\u{7f}');
    }
    r
}

pub(crate) fn hex_value_exec(c: char) -> (r: Option<u8>)
    ensures
        r is Some <==> is_hex_digit(c),
        r matches Some(v) ==> v == hex_value(c) && v < 16,
{
    let cb = c as u32;
    if 48 <= cb && cb <= 57 {
        Some((cb - 48) as u8)
    } else if 65 <= cb && cb <= 70 {
        Some((cb - 55) as u8)
    } else if 97 <= cb && cb <= 102 {
        Some((cb - 87) as u8)
    } else {
        None
    }
}

fn decode_bytes_from(s: &str, i: usize) -> (r: Option<Vec<u8>>)
    requires
        s.is_ascii(),
        i <= s@.len(),
    ensures
        r is Some <==> decode_spec(s@.skip(i as int)) is Some,
        r matches Some(v) ==> {
            &&& forall|j: int| 0 <= j < v@.len() ==> v@[j] < 128
            &&& Some(v@.map_values(|b: u8| b as char)) == decode_spec(s@.skip(i as int))
        },
    decreases s@.len() - i,
{
    let n = s.unicode_len();
    if i == n {
        let v: Vec<u8> = Vec::new();
        assert(v@.map_values(|b: u8| b as char) =~= Seq::<char>::empty());
        Some(v)
    } else {
        let c = s.get_char(i);
        assert(s@.skip(i as int)[0] == c);
        if c == '%' {
            if n - i > 2 {
                let c1 = s.get_char(i + 1);
                let c2 = s.get_char(i + 2);
                assert(s@.skip(i as int)[1] == c1 && s@.skip(i as int)[2] == c2);
                match (hex_value_exec(c1), hex_value_exec(c2)) {
                    (Some(h1), Some(h2)) => {
                        let b = h1 * 16 + h2;
                        if b < 128 {
                            match decode_bytes_from(s, i + 3) {
                                Some(mut v) => {
                                    assert(s@.skip(i as int).skip(3) =~= s@.skip(i + 3));
                                    v.insert(0, b);
                                    assert(v@.map_values(|x: u8| x as char) =~= seq![
                                        (b) as char,
                                    ] + v@.skip(1).map_values(|x: u8| x as char));
                                    assert(v@.skip(1).map_values(|x: u8| x as char)
                                        == decode_spec(s@.skip(i + 3))->Some_0) by {
                                        assert(v@.skip(1) =~= v@.subrange(1, v@.len() as int));
                                    }
                                    Some(v)
                                },
                                None => {
                                    assert(s@.skip(i as int).skip(3) =~= s@.skip(i + 3));
                                    None
                                },
                            }
                        } else {
                            None
                        }
                    },
                    _ => None,
                }
            } else {
                assert(s@.skip(i as int).len() < 3);
                None
            }
        } else {
            match decode_bytes_from(s, i + 1) {
                Some(mut v) => {
                    assert(s@.skip(i as int).skip(1) =~= s@.skip(i + 1));
                    assert(c <= '\u{7f}');
                    let cb = c as u8;
                    assert((cb as char) == c);
                    v.insert(0, cb);
                    assert(v@.map_values(|x: u8| x as char) =~= seq![c] + v@.skip(1).map_values(
                        |x: u8| x as char,
                    ));
                    assert(v@.skip(1).map_values(|x: u8| x as char) == decode_spec(
                        s@.skip(i + 1),
                    )->Some_0) by {
                        assert(v@.skip(1) =~= v@.subrange(1, v@.len() as int));
                    }
                    Some(v)
                },
                None => {
                    assert(s@.skip(i as int).skip(1) =~= s@.skip(i + 1));
                    None
                },
            }
        }
    }
}

/// Percent-decode an ASCII string; `None` exactly when a `%` is not
/// followed by two hexadecimal digits with a value below 128.
pub fn percent_decode(s: &str) -> (r: Option<String>)
    requires
        s.is_ascii(),
    ensures
        r is Some <==> decode_spec(s@) is Some,
        r matches Some(d) ==> Some(d@) == decode_spec(s@) && d.is_ascii(),
{
    assert(s@.skip(0) =~= s@);
    match decode_bytes_from(s, 0) {
        Some(v) => {
            let d = ascii_string(v);
            assert(is_ascii_chars(d@)) by {
                assert(forall|i: int|
                    0 <= i < d@.len() ==> '\0' <= #[trigger] d@[i] && d@[i] <= '\u{7f}');
            }
            Some(d)
        },
        None => None,
    }
}

/// Two ASCII sequences concatenate to an ASCII sequence.
pub proof fn lemma_ascii_concat(a: Seq<char>, b: Seq<char>)
    requires
        is_ascii_chars(a),
        is_ascii_chars(b),
    ensures
        is_ascii_chars(a + b),
{
    assert forall|i: int| 0 <= i < (a + b).len() implies '\0' <= #[trigger] (a + b)[i]
        <= '\u{7f}' by {
        if i < a.len() {
            assert((a + b)[i] == a[i]);
        } else {
            assert((a + b)[i] == b[i - a.len()]);
        }
    }
}

proof fn lemma_hex_upper(n: u8)
    requires
        n < 16,
    ensures
        is_hex_digit(hex_upper(n)),
        hex_value(hex_upper(n)) == n,
        hex_upper(n) != '%',
{
}

/// Decoding undoes encoding: a percent-encoded ASCII sequence decodes back
/// to the original, exactly. The authorization URL builder encodes each of
/// its query parameters this way, so each parameter can be recovered.
pub proof fn lemma_percent_roundtrip(s: Seq<char>)
    requires
        is_ascii_chars(s),
    ensures
        decode_spec(encode_spec(s)) == Some(s),
    decreases s.len(),
{
    if s.len() == 0 {
        assert(encode_spec(s).len() == 0);
        assert(decode_spec(encode_spec(s)) == Some(Seq::<char>::empty()));
        assert(s =~= Seq::<char>::empty());
    } else {
        let c = s[0];
        let rest = s.skip(1);
        assert(is_ascii_chars(rest)) by {
            assert(forall|i: int| 0 <= i < rest.len() ==> rest[i] == s[i + 1]);
        }
        lemma_percent_roundtrip(rest);
        let e = encode_spec(s);
        assert(e == enc_char(c) + encode_spec(rest));
        if is_unreserved(c) {
            assert(e[0] == c);
            assert(c != '%');
            assert(e.skip(1) =~= encode_spec(rest));
            assert(decode_spec(e) == Some(seq![c] + rest));
            assert(seq![c] + rest =~= s);
        } else {
            let cb = c as u8;
            assert(cb < 128);
            let h1 = hex_upper(cb / 16);
            let h2 = hex_upper(cb % 16);
            lemma_hex_upper(cb / 16);
            lemma_hex_upper(cb % 16);
            assert(e[0] == '%' && e[1] == h1 && e[2] == h2);
            assert(e.len() >= 3);
            assert(hex_value(h1) * 16 + hex_value(h2) == cb) by {
                assert(cb / 16 * 16 + cb % 16 == cb);
            }
            assert(e.skip(3) =~= encode_spec(rest));
            assert((cb) as char == c);
            assert(decode_spec(e) == Some(seq![c] + rest));
            assert(seq![c] + rest =~= s);
        }
    }
}

} // verus!
