//! Hexadecimal cookies as written in DTLS test configurations: each byte is two lower-case
//! hex digits, and spaces between bytes are skipped.
use vstd::prelude::*;
use vstd::string::StringSliceAdditionalSpecFns;

verus! {

/// The value of a lower-case hexadecimal digit, given as its ASCII code.
pub open spec fn hex_digit(c: u8) -> Option<int> {
    if 48 <= c <= 57 {
        Some(c - 48)
    } else if 97 <= c <= 102 {
        Some(c - 87)
    } else {
        None
    }
}

/// The byte written by at most two lower-case hex digits (the empty text stands for 0),
/// or `None` for longer text or any other character.
pub open spec fn spec_hex_to_u8(b: Seq<u8>) -> Option<u8> {
    if b.len() > 2 {
        None
    } else if b.len() == 0 {
        Some(0)
    } else if b.len() == 1 {
        match hex_digit(b[0]) {
            Some(d) => Some(d as u8),
            None => None,
        }
    } else {
        match (hex_digit(b[0]), hex_digit(b[1])) {
            (Some(h), Some(l)) => Some((h * 16 + l) as u8),
            _ => None,
        }
    }
}

/// The bytes of the text `default`.
pub open spec fn default_text() -> Seq<u8> {
    seq![100u8, 101, 102, 97, 117, 108, 116]
}

/// The bytes of a cookie read from position `i` of `b`: a space is skipped, anything else
/// must be a pair of hex digits; a last lone character is ignored.  `None` when a pair is
/// not hex.
pub open spec fn cookie_from(b: Seq<u8>, i: int) -> Option<Seq<u8>>
    decreases b.len() - i,
{
    if i < 0 || i + 1 >= b.len() {
        Some(Seq::empty())
    } else if b[i] == 32 {
        cookie_from(b, i + 1)
    } else {
        match spec_hex_to_u8(b.subrange(i, i + 2)) {
            Some(v) => match cookie_from(b, i + 2) {
                Some(rest) => Some(seq![v] + rest),
                None => None,
            },
            None => None,
        }
    }
}

fn hex_digit_value(c: u8) -> (r: Option<u8>)
    ensures
        r matches Some(v) ==> hex_digit(c) == Some(v as int),
        r is None <==> hex_digit(c) is None,
{
    if 48 <= c && c <= 57 {
        Some(c - 48)
    } else if 97 <= c && c <= 102 {
        Some(c - 87)
    } else {
        None
    }
}

fn hex_bytes_to_u8(b: &[u8]) -> (r: Option<u8>)
    ensures
        r == spec_hex_to_u8(b@),
{
    if b.len() > 2 {
        return None;
    }
    if b.len() == 0 {
        return Some(0);
    }
    let first = hex_digit_value(b[0]);
    if b.len() == 1 {
        return first;
    }
    let second = hex_digit_value(b[1]);
    match (first, second) {
        (Some(h), Some(l)) => Some(h * 16 + l),
        _ => None,
    }
}

/// Reads a byte written as at most two lower-case hex digits, as in `"a1"`.
pub fn hex_to_u8(x: &str) -> (r: Option<u8>)
    ensures
        r == spec_hex_to_u8(x.spec_bytes()),
{
    hex_bytes_to_u8(x.as_bytes())
}

fn is_default_text(b: &[u8]) -> (r: bool)
    ensures
        r == (b@ == default_text()),
{
    let r = b.len() == 7 && b[0] == 100 && b[1] == 101 && b[2] == 102 && b[3] == 97 && b[4]
        == 117 && b[5] == 108 && b[6] == 116;
    if r {
        assert(b@ =~= default_text());
    }
    r
}

/// Reads a cookie: `"default"` stands for no cookie; otherwise each byte is two hex digits,
/// and spaces between bytes are skipped.  Every pair must be valid hex.
pub fn parse_cookie(x: &str) -> (r: Vec<u8>)
    requires
        x.spec_bytes() == default_text() || cookie_from(x.spec_bytes(), 0) is Some,
    ensures
        x.spec_bytes() == default_text() ==> r@ == Seq::<u8>::empty(),
        x.spec_bytes() != default_text() ==> r@ == cookie_from(x.spec_bytes(), 0).unwrap(),
{
    let b = x.as_bytes();
    let mut vec_cookie: Vec<u8> = Vec::new();
    if is_default_text(b) {
        return vec_cookie;
    }
    let mut i: usize = 0;
    while i < b.len() && i + 1 < b.len()
        invariant
            b@ == x.spec_bytes(),
            i <= b.len(),
            cookie_from(b@, i as int) is Some,
            cookie_from(b@, 0) == Some(vec_cookie@ + cookie_from(b@, i as int).unwrap()),
        decreases b.len() - i,
    {
        if b[i] == 32 {
            i += 1;
        } else {
            let pair = slice_pair(b, i);
            let v = hex_bytes_to_u8(pair);
            let v = v.unwrap();
            proof {
                let rest = cookie_from(b@, i + 2).unwrap();
                assert(cookie_from(b@, i as int).unwrap() == seq![v] + rest);
                assert(vec_cookie@ + (seq![v] + rest) =~= vec_cookie@.push(v) + rest);
            }
            vec_cookie.push(v);
            i += 2;
        }
    }
    assert(vec_cookie@ + Seq::<u8>::empty() =~= vec_cookie@);
    vec_cookie
}

/// The two bytes starting at `i`.
fn slice_pair(b: &[u8], i: usize) -> (r: &[u8])
    requires
        i + 2 <= b.len(),
    ensures
        r@ == b@.subrange(i as int, i + 2),
{
    let r = vstd::slice::slice_subrange(b, i, i + 2);
    r
}

/// The ASCII code of the lower-case hex digit for `d` (0 to 15).
pub open spec fn hex_char(d: int) -> u8 {
    if d < 10 {
        (48 + d) as u8
    } else {
        (87 + d) as u8
    }
}

/// Every byte written as its two lower-case hex digits reads back as itself.
pub proof fn lemma_hex_roundtrip(v: u8)
    ensures
        spec_hex_to_u8(seq![hex_char(v as int / 16), hex_char(v as int % 16)]) == Some(v),
{
    let s = seq![hex_char(v as int / 16), hex_char(v as int % 16)];
    assert(s.len() == 2);
    assert(hex_digit(s[0]) == Some(v as int / 16));
    assert(hex_digit(s[1]) == Some(v as int % 16));
}

} // verus!
