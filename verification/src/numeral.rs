use vstd::prelude::*;

verus! {

/// Decimal digit character for a value below 10.
pub open spec fn dec_digit(n: nat) -> char
    recommends
        n < 10,
{
    ((48 + n) as u8) as char
}

/// Decimal rendering of a natural number, most significant digit first,
/// with no leading zeros (a single `0` for zero).
pub open spec fn dec_rep(n: nat) -> Seq<char>
    decreases n,
{
    if n < 10 {
        seq![dec_digit(n)]
    } else {
        dec_rep(n / 10) + seq![dec_digit(n % 10)]
    }
}

fn dec_bytes(n: u64) -> (r: Vec<u8>)
    ensures
        forall|j: int| 0 <= j < r@.len() ==> r@[j] < 128,
        r@.map_values(|b: u8| b as char) == dec_rep(n as nat),
    decreases n,
{
    if n < 10 {
        let mut r: Vec<u8> = Vec::new();
        r.push(48 + (n as u8));
        assert(r@.map_values(|b: u8| b as char) =~= dec_rep(n as nat));
        r
    } else {
        let mut r = dec_bytes(n / 10);
        r.push(48 + ((n % 10) as u8));
        assert(r@.map_values(|b: u8| b as char) =~= dec_rep((n / 10) as nat) + seq![
            dec_digit((n % 10) as nat),
        ]);
        r
    }
}

/// Render an unsigned number in decimal, as the redirect URI needs for the
/// port and the HTTP response for its content length.
pub fn u64_to_decimal(n: u64) -> (r: String)
    ensures
        r@ == dec_rep(n as nat),
        r.is_ascii(),
{
    let bytes = dec_bytes(n);
    let r = crate::percent::ascii_string(bytes);
    assert(vstd::utf8::is_ascii_chars(r@)) by {
        assert(forall|i: int|
            0 <= i < r@.len() ==> '\0' <= #[trigger] r@[i] && r@[i] <= '\u{7f}');
    }
    r
}

} // verus!
