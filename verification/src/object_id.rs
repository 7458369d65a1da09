//! Identifiers of stored users: twelve raw bytes, written as 24 hexadecimal
//! characters (lower case on output, either case on input).

use vstd::prelude::*;

verus! {

/// The numeric value of a hexadecimal digit (`0-9`, `a-f`, `A-F`).
pub open spec fn hex_digit_value(c: char) -> int {
    let n = c as int;
    if 48 <= n <= 57 {
        n - 48
    } else if 65 <= n <= 70 {
        n - 55
    } else {
        n - 87
    }
}

/// Whether `c` is a hexadecimal digit, in either case.
pub open spec fn is_hex_digit(c: char) -> bool {
    let n = c as int;
    (48 <= n <= 57) || (65 <= n <= 70) || (97 <= n <= 102)
}

/// The lower-case hexadecimal digit for a value in `0..16`.
pub open spec fn hex_char(v: int) -> char {
    if v < 10 {
        (v + 48) as char
    } else {
        (v + 87) as char
    }
}

/// Lower-case hexadecimal text of a byte sequence: two digits per byte,
/// high nibble first.
pub open spec fn hex_lower(bytes: Seq<u8>) -> Seq<char> {
    Seq::new(
        2 * bytes.len(),
        |i: int|
            if i % 2 == 0 {
                hex_char(bytes[i / 2] as int / 16)
            } else {
                hex_char(bytes[i / 2] as int % 16)
            },
    )
}

/// Whether `s` is the text of an identifier: exactly 24 hexadecimal digits.
pub open spec fn is_object_id_text(s: Seq<char>) -> bool {
    &&& s.len() == 24
    &&& forall|i: int| 0 <= i < s.len() ==> is_hex_digit(#[trigger] s[i])
}

/// The bytes that hexadecimal text stands for, two digits per byte.
pub open spec fn hex_decode(s: Seq<char>) -> Seq<u8> {
    Seq::new(
        s.len() / 2,
        |i: int| (16 * hex_digit_value(s[2 * i]) + hex_digit_value(s[2 * i + 1])) as u8,
    )
}

#[verifier::external_type_specification]
#[verifier::external_body]
pub struct ExObjectIdError(bson::oid::Error);

/// The identifier of a stored user.
#[derive(Clone, Copy, Debug, PartialEq, Eq)]
pub struct UserId {
    pub bytes: [u8; 12],
}

/// `bson::oid::ObjectId::with_bytes` followed by `ObjectId::to_hex`:
/// `to_hex` is `hex::encode` of the twelve bytes, which writes each byte as
/// two lower-case digits, high nibble first.
#[verifier::external_body]
fn object_id_to_hex(bytes: [u8; 12]) -> (text: String)
    ensures
        text@ == hex_lower(bytes@),
{
    bson::oid::ObjectId::with_bytes(bytes).to_hex()
}

/// `bson::oid::ObjectId::with_string` followed by `ObjectId::bytes`:
/// `with_string` runs `hex::decode` on the bytes of the text (odd length and
/// non-digits are errors; digits of either case) and then refuses any result
/// that is not twelve bytes long. So it succeeds exactly on 24 hexadecimal
/// digits, and the bytes are their pairwise values.
#[verifier::external_body]
fn object_id_from_text(text: &str) -> (r: Result<[u8; 12], bson::oid::Error>)
    ensures
        r is Ok <==> is_object_id_text(text@),
        r matches Ok(bytes) ==> bytes@ == hex_decode(text@),
{
    match bson::oid::ObjectId::with_string(text) {
        Ok(oid) => Ok(oid.bytes()),
        Err(e) => Err(e),
    }
}

impl UserId {
    /// The identifier as 24 lower-case hexadecimal characters.
    pub fn to_hex(&self) -> (text: String)
        ensures
            text@ == hex_lower(self.bytes@),
            is_object_id_text(text@),
            hex_decode(text@) == self.bytes@,
    {
        proof {
            lemma_hex_round_trip(self.bytes@);
        }
        object_id_to_hex(self.bytes)
    }

    /// Reads an identifier from its hexadecimal text; `None` unless the text
    /// is exactly 24 hexadecimal digits.
    pub fn parse(text: &str) -> (r: Option<UserId>)
        ensures
            r is Some <==> is_object_id_text(text@),
            r matches Some(id) ==> id.bytes@ == hex_decode(text@),
    {
        match object_id_from_text(text) {
            Ok(bytes) => Some(UserId { bytes }),
            Err(_) => None,
        }
    }
}

/// Value of the digit written for a value below sixteen.
pub proof fn lemma_hex_char(v: int)
    requires
        0 <= v < 16,
    ensures
        is_hex_digit(hex_char(v)),
        hex_digit_value(hex_char(v)) == v,
{
}

/// The text written for an identifier is read back as the same identifier:
/// it is 24 hexadecimal digits and decodes to the original bytes.
pub proof fn lemma_hex_round_trip(bytes: Seq<u8>)
    requires
        bytes.len() == 12,
    ensures
        is_object_id_text(hex_lower(bytes)),
        hex_decode(hex_lower(bytes)) == bytes,
{
    let s = hex_lower(bytes);
    assert forall|i: int| 0 <= i < s.len() implies is_hex_digit(#[trigger] s[i]) by {
        lemma_hex_char(bytes[i / 2] as int / 16);
        lemma_hex_char(bytes[i / 2] as int % 16);
    }
    assert forall|k: int| 0 <= k < 12 implies #[trigger] hex_decode(s)[k] == bytes[k] by {
        let b = bytes[k] as int;
        lemma_hex_char(b / 16);
        lemma_hex_char(b % 16);
        assert(s[2 * k] == hex_char(b / 16));
        assert(s[2 * k + 1] == hex_char(b % 16));
        assert(16 * (b / 16) + b % 16 == b);
    }
    assert(hex_decode(s) =~= bytes);
}

} // verus!
