//! Hexadecimal text of binary fields, as they cross the API boundary.
use vstd::prelude::*;

use crate::cipher::SealedSecret;
use crate::error::CpassError;

verus! {

/// hex::FromHexError, the failure of hex decoding; carried, never inspected.
#[verifier::external_type_specification]
#[verifier::external_body]
pub struct ExFromHexError(hex::FromHexError);

/// Whether `c` is a hexadecimal digit, in either case.
pub open spec fn is_hex_digit(c: char) -> bool {
    ('0' <= c && c <= '9') || ('a' <= c && c <= 'f') || ('A' <= c && c <= 'F')
}

/// The value of a hexadecimal digit.
pub open spec fn hex_value(c: char) -> nat {
    if '0' <= c && c <= '9' {
        (c as u32 - '0' as u32) as nat
    } else if 'a' <= c && c <= 'f' {
        (c as u32 - 'a' as u32 + 10) as nat
    } else {
        (c as u32 - 'A' as u32 + 10) as nat
    }
}

/// The lower-case digit of a value below 16.
pub open spec fn hex_digit(n: nat) -> char {
    if n == 0 {
        '0'
    } else if n == 1 {
        '1'
    } else if n == 2 {
        '2'
    } else if n == 3 {
        '3'
    } else if n == 4 {
        '4'
    } else if n == 5 {
        '5'
    } else if n == 6 {
        '6'
    } else if n == 7 {
        '7'
    } else if n == 8 {
        '8'
    } else if n == 9 {
        '9'
    } else if n == 10 {
        'a'
    } else if n == 11 {
        'b'
    } else if n == 12 {
        'c'
    } else if n == 13 {
        'd'
    } else if n == 14 {
        'e'
    } else {
        'f'
    }
}

/// Two lower-case digits per byte, high nibble first.
pub open spec fn hex_of(b: Seq<u8>) -> Seq<char>
    decreases b.len(),
{
    if b.len() == 0 {
        Seq::empty()
    } else {
        hex_of(b.drop_last()) + seq![hex_digit(b.last() as nat / 16), hex_digit(b.last() as nat % 16)]
    }
}

/// Text that hex decoding accepts: an even number of hexadecimal digits.
pub open spec fn is_hex_text(s: Seq<char>) -> bool {
    s.len() % 2 == 0 && forall|i: int| 0 <= i < s.len() ==> is_hex_digit(#[trigger] s[i])
}

/// The bytes that hexadecimal text stands for, a pair of digits each.
pub open spec fn unhex(s: Seq<char>) -> Seq<u8>
    decreases s.len(),
{
    if s.len() < 2 {
        Seq::empty()
    } else {
        unhex(s.subrange(0, s.len() - 2)).push(
            (hex_value(s[s.len() - 2]) * 16 + hex_value(s[s.len() - 1])) as u8,
        )
    }
}

/// Relies on hex::encode: two lower-case digits per byte, high nibble
/// first.
#[verifier::external_body]
fn hex_encode(b: &[u8]) -> (r: String)
    ensures
        r@ == hex_of(b@),
{
    hex::encode(b)
}

/// Relies on hex::decode: it accepts an even number of hexadecimal digits
/// of either case, and gives one byte per pair.
#[verifier::external_body]
fn hex_decode(s: &str) -> (r: Result<Vec<u8>, hex::FromHexError>)
    ensures
        r is Ok <==> is_hex_text(s@),
        r is Ok ==> r->Ok_0@ == unhex(s@),
{
    hex::decode(s)
}

proof fn lemma_hex_digit(n: nat)
    requires
        n < 16,
    ensures
        is_hex_digit(hex_digit(n)),
        hex_value(hex_digit(n)) == n,
{
}

/// Hexadecimal text reads back as the bytes it was made from.
pub proof fn lemma_hex_round_trip(b: Seq<u8>)
    ensures
        is_hex_text(hex_of(b)),
        unhex(hex_of(b)) == b,
        hex_of(b).len() == 2 * b.len(),
    decreases b.len(),
{
    if b.len() > 0 {
        let init = b.drop_last();
        lemma_hex_round_trip(init);
        let x = b.last() as nat;
        lemma_hex_digit(x / 16);
        lemma_hex_digit(x % 16);
        let s = hex_of(b);
        let pair = seq![hex_digit(x / 16), hex_digit(x % 16)];
        assert(s == hex_of(init) + pair);
        assert(s.subrange(0, s.len() - 2) =~= hex_of(init));
        assert(s[s.len() - 2] == hex_digit(x / 16));
        assert(s[s.len() - 1] == hex_digit(x % 16));
        assert(x == (x / 16) * 16 + x % 16);
        assert(unhex(s) =~= init.push(b.last()));
        assert(init.push(b.last()) =~= b);
        assert forall|i: int| 0 <= i < s.len() implies is_hex_digit(#[trigger] s[i]) by {
            if i < hex_of(init).len() {
                assert(s[i] == hex_of(init)[i]);
            }
        }
    }
}

/// The hexadecimal text of bytes.
pub fn encode_hex(b: &[u8]) -> (r: String)
    ensures
        r@ == hex_of(b@),
        is_hex_text(r@),
        unhex(r@) == b@,
{
    proof {
        lemma_hex_round_trip(b@);
    }
    hex_encode(b)
}

/// The bytes of hexadecimal text; other text is an invalid request.
pub fn decode_hex(s: &str) -> (r: Result<Vec<u8>, CpassError>)
    ensures
        r is Ok <==> is_hex_text(s@),
        r is Ok ==> r->Ok_0@ == unhex(s@),
        r is Err ==> r matches Err(CpassError::InvalidRequest(_)),
{
    match hex_decode(s) {
        Ok(b) => Ok(b),
        Err(_) => Err(CpassError::InvalidRequest("can not decode the field from hex".to_string())),
    }
}

impl SealedSecret {
    /// The ciphertext and the salt as hexadecimal text.
    pub fn to_hex(&self) -> (r: (String, String))
        ensures
            r.0@ == hex_of(self.ciphertext@),
            r.1@ == hex_of(self.salt@),
    {
        (encode_hex(&self.ciphertext), encode_hex(&self.salt))
    }

    /// A sealed secret from the hexadecimal text of its ciphertext and
    /// salt. What `to_hex` gives reads back unchanged.
    pub fn from_hex(ciphertext: &str, salt: &str) -> (r: Result<SealedSecret, CpassError>)
        ensures
            r is Ok <==> is_hex_text(ciphertext@) && is_hex_text(salt@),
            r is Ok ==> r->Ok_0.ciphertext@ == unhex(ciphertext@) && r->Ok_0.salt@ == unhex(
                salt@,
            ),
            r is Err ==> r matches Err(CpassError::InvalidRequest(_)),
            forall|c: Seq<u8>, s: Seq<u8>|
                #![trigger hex_of(c), hex_of(s)]
                ciphertext@ == hex_of(c) && salt@ == hex_of(s) ==> r is Ok && r->Ok_0.ciphertext@
                    == c && r->Ok_0.salt@ == s,
    {
        proof {
            assert forall|c: Seq<u8>, s: Seq<u8>|
                #![trigger hex_of(c), hex_of(s)]
                ciphertext@ == hex_of(c) && salt@ == hex_of(s) implies is_hex_text(ciphertext@)
                && is_hex_text(salt@) && unhex(ciphertext@) == c && unhex(salt@) == s by {
                lemma_hex_round_trip(c);
                lemma_hex_round_trip(s);
            }
        }
        let c = decode_hex(ciphertext)?;
        let s = decode_hex(salt)?;
        Ok(SealedSecret { ciphertext: c, salt: s })
    }
}

} // verus!
