//! Percent-encoding of URL parameter values, with a proof that the
//! encoding is lossless: decoding an encoded value gives back the
//! original bytes.

use vstd::prelude::*;

verus! {

/// A byte that percent-encoding leaves as itself: an ASCII alphanumeric
/// or one of `-`, `.`, `_`, `~`.
pub open spec fn is_unreserved_byte(b: u8) -> bool {
    ||| 48 <= b <= 57
    ||| 65 <= b <= 90
    ||| 97 <= b <= 122
    ||| b == 45
    ||| b == 46
    ||| b == 95
    ||| b == 126
}

/// The ASCII code of the uppercase hexadecimal digit for a value below 16.
pub open spec fn upper_hex_digit(v: u8) -> u8
    recommends
        v < 16,
{
    if v < 10 {
        (48 + v) as u8
    } else {
        (55 + v) as u8
    }
}

/// An ASCII code that `upper_hex_digit` can produce: `0`-`9` or `A`-`F`.
pub open spec fn is_upper_hex(d: u8) -> bool {
    ||| 48 <= d <= 57
    ||| 65 <= d <= 70
}

/// The value of an uppercase hexadecimal digit.
pub open spec fn hex_value(d: u8) -> u8
    recommends
        is_upper_hex(d),
{
    if d <= 57 {
        (d - 48) as u8
    } else {
        (d - 55) as u8
    }
}

/// How a single byte is percent-encoded: an unreserved byte stands for
/// itself, every other byte becomes `%` followed by two uppercase
/// hexadecimal digits.
pub open spec fn encoded_byte(b: u8) -> Seq<u8> {
    if is_unreserved_byte(b) {
        seq![b]
    } else {
        seq![37u8, upper_hex_digit(b / 16), upper_hex_digit(b % 16)]
    }
}

/// The percent-encoding of a byte sequence, byte by byte.
pub open spec fn percent_encoded(s: Seq<u8>) -> Seq<u8>
    decreases s.len(),
{
    if s.len() == 0 {
        Seq::empty()
    } else {
        encoded_byte(s[0]) + percent_encoded(s.skip(1))
    }
}

/// The inverse reading of a percent-encoded sequence: `%XX` with two
/// uppercase hexadecimal digits yields the encoded byte, any other byte
/// stands for itself; a dangling or malformed escape fails.
pub open spec fn percent_decoded(s: Seq<u8>) -> Option<Seq<u8>>
    decreases s.len(),
{
    if s.len() == 0 {
        Some(Seq::empty())
    } else if s[0] == 37 {
        if s.len() >= 3 && is_upper_hex(s[1]) && is_upper_hex(s[2]) {
            match percent_decoded(s.skip(3)) {
                Some(rest) => Some(
                    seq![((16 * hex_value(s[1]) + hex_value(s[2])) as u8)] + rest,
                ),
                None => None,
            }
        } else {
            None
        }
    } else {
        match percent_decoded(s.skip(1)) {
            Some(rest) => Some(seq![s[0]] + rest),
            None => None,
        }
    }
}

/// Percent-encoding loses nothing: decoding an encoded sequence always
/// succeeds and gives back the original bytes.
pub proof fn lemma_percent_round_trip(s: Seq<u8>)
    ensures
        percent_decoded(percent_encoded(s)) == Some(s),
    decreases s.len(),
{
    if s.len() == 0 {
        assert(s =~= Seq::<u8>::empty());
    } else {
        lemma_percent_round_trip(s.skip(1));
        let b = s[0];
        let e = percent_encoded(s);
        if is_unreserved_byte(b) {
            assert(e =~= seq![b] + percent_encoded(s.skip(1)));
            assert(e[0] == b && b != 37);
            assert(e.skip(1) =~= percent_encoded(s.skip(1)));
            assert(seq![b] + s.skip(1) =~= s);
        } else {
            assert(e =~= seq![37u8, upper_hex_digit(b / 16), upper_hex_digit(b % 16)]
                + percent_encoded(s.skip(1)));
            assert(e[0] == 37);
            assert(is_upper_hex(e[1]) && is_upper_hex(e[2]));
            assert(hex_value(e[1]) == b / 16 && hex_value(e[2]) == b % 16);
            assert(16 * (b / 16) + b % 16 == b);
            assert(e.skip(3) =~= percent_encoded(s.skip(1)));
            assert(seq![b] + s.skip(1) =~= s);
        }
    }
}

/// Relies on `urlencoding::encode_binary`: percent-encodes every byte
/// except ASCII alphanumerics and `-`, `.`, `_`, `~`, writing escapes as
/// `%` plus two uppercase hexadecimal digits.
#[verifier::external_body]
pub(crate) fn percent_encode(data: &[u8]) -> (r: Vec<u8>)
    ensures
        r@ == percent_encoded(data@),
{
    urlencoding::encode_binary(data).into_owned().into_bytes()
}

} // verus!
