//! Lowercase hexadecimal rendering of byte sequences, used for diagnostics.
use vstd::prelude::*;

verus! {

/// The sixteen lowercase hexadecimal digit characters, in value order.
pub open spec fn hex_digit_chars() -> Seq<char> {
    seq![
        '0', '1', '2', '3', '4', '5', '6', '7',
        '8', '9', 'a', 'b', 'c', 'd', 'e', 'f',
    ]
}

/// The lowercase hexadecimal digit for a nibble.
pub open spec fn hex_char_of_nibble(n: u8) -> char
    recommends
        n < 16,
{
    hex_digit_chars()[n as int]
}

/// The lowercase hexadecimal rendering of a byte sequence: two digits per
/// byte, high nibble first.
pub open spec fn spec_hex_encode(s: Seq<u8>) -> Seq<char>
    decreases s.len(),
{
    if s.len() == 0 {
        Seq::empty()
    } else {
        seq![hex_char_of_nibble(s[0] / 16), hex_char_of_nibble(s[0] % 16)]
            + spec_hex_encode(s.skip(1))
    }
}

/// Relies on hex::encode: renders each input byte as exactly two lowercase
/// hexadecimal digits, high nibble first.
#[verifier::external_body]
pub(crate) fn hex_encode(bytes: &Vec<u8>) -> (r: String)
    ensures
        r@ == spec_hex_encode(bytes@),
{
    hex::encode(bytes.as_slice())
}

} // verus!
