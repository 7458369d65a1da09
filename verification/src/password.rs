//! Password hashes, made and checked by bcrypt.

use vstd::prelude::*;
use vstd::utf8::is_ascii_chars;

verus! {

/// What `bcrypt::verify` answers for a password and a stored hash: `None`
/// for an error, else whether the password is the one hashed.
pub uninterp spec fn bcrypt_verify_outcome(password: Seq<char>, hash: Seq<char>) -> Option<bool>;

/// Whether `password` is the one that `hash` was made from.
pub open spec fn password_matches(password: Seq<char>, hash: Seq<char>) -> bool {
    bcrypt_verify_outcome(password, hash) == Some(true)
}

/// What checking `password` against a stored `hash` gives: bcrypt's answer
/// for an ASCII hash, and `None` for any other text, which is no bcrypt hash.
pub open spec fn verify_outcome(password: Seq<char>, hash: Seq<char>) -> Option<bool> {
    if is_ascii_chars(hash) {
        bcrypt_verify_outcome(password, hash)
    } else {
        None
    }
}

/// A check of a password against a hash answers only what bcrypt answers:
/// it accepts a password only when bcrypt says it is the one hashed, and
/// refuses it only when bcrypt says it is not.
pub proof fn lemma_check_answers_as_bcrypt(password: Seq<char>, hash: Seq<char>)
    ensures
        verify_outcome(password, hash) == Some(true) ==> password_matches(password, hash),
        verify_outcome(password, hash) == Some(false) ==> bcrypt_verify_outcome(password, hash)
            == Some(false),
        is_ascii_chars(hash) ==> verify_outcome(password, hash) == bcrypt_verify_outcome(
            password,
            hash,
        ),
{
}

/// The decimal digit for a value below ten.
pub open spec fn digit_char(v: int) -> char {
    (v + 48) as char
}

/// Whether `c` is a decimal digit.
pub open spec fn is_digit(c: char) -> bool {
    48 <= c as int <= 57
}

/// The value of a symbol of bcrypt's base64 alphabet
/// (`./A-Za-z0-9`, in that order), or -1 for any other character.
pub open spec fn bcrypt_symbol_value(c: char) -> int {
    let n = c as int;
    if n == 46 {
        0
    } else if n == 47 {
        1
    } else if 65 <= n <= 90 {
        n - 63
    } else if 97 <= n <= 122 {
        n - 69
    } else if 48 <= n <= 57 {
        n + 6
    } else {
        -1
    }
}

/// A stored hash that `bcrypt::verify` reads: 60 characters, `$`, one of the
/// versions `2a`, `2b`, `2y`, `$`, a cost of two digits from 04 to 31, `$`,
/// then 22 characters of salt and 31 of digest in bcrypt's base64 alphabet,
/// whose last symbols leave their unused low bits (four for the salt, two
/// for the digest) zero.
pub open spec fn well_formed_hash(h: Seq<char>) -> bool {
    &&& h.len() == 60
    &&& h[0] == '$' && h[1] == '2' && (h[2] == 'a' || h[2] == 'b' || h[2] == 'y') && h[3] == '$'
    &&& is_digit(h[4]) && is_digit(h[5])
    &&& 4 <= 10 * (h[4] as int - 48) + (h[5] as int - 48) <= 31
    &&& h[6] == '$'
    &&& forall|i: int| 7 <= i < 60 ==> bcrypt_symbol_value(#[trigger] h[i]) >= 0
    &&& bcrypt_symbol_value(h[28]) % 16 == 0
    &&& bcrypt_symbol_value(h[59]) % 4 == 0
}

/// A well-formed hash is ASCII.
pub proof fn lemma_well_formed_hash_is_ascii(h: Seq<char>)
    requires
        well_formed_hash(h),
    ensures
        is_ascii_chars(h),
{
    assert forall|i: int| 0 <= i < h.len() implies '\0' <= #[trigger] h[i] <= '\u{7f}' by {
        if i >= 7 {
            assert(bcrypt_symbol_value(h[i]) >= 0);
        }
    }
}

/// The shape of a bcrypt hash made with `cost`: well formed, starting
/// `$2b$`, then the cost in two digits and `$`.
pub open spec fn hash_shape(hash: Seq<char>, cost: int) -> bool {
    &&& well_formed_hash(hash)
    &&& hash.subrange(0, 4) == "$2b$"@
    &&& hash[4] == digit_char(cost / 10)
    &&& hash[5] == digit_char(cost % 10)
    &&& hash[6] == '$'
}

#[verifier::external_type_specification]
#[verifier::external_body]
pub struct ExBcryptError(bcrypt::BcryptError);

/// `bcrypt::hash`. The salt is random, so the hash is not named. The source
/// refuses a cost outside `4..=31` and a password that holds a NUL byte
/// (only the character `'\0'` encodes to one); it may also fail when the
/// system gives no random bytes. A hash it returns is `$2b$`, the cost in two
/// digits, `$`, 22 characters of salt (16 bytes) and 31 of digest (23
/// bytes) in bcrypt's base64 alphabet, whose encoding leaves the unused low
/// bits of the last symbols zero, and `bcrypt::verify`
/// recomputes the digest from that salt and cost, so it accepts the same
/// password.
#[verifier::external_body]
pub(crate) fn bcrypt_hash(password: &str, cost: u32) -> (r: Result<String, bcrypt::BcryptError>)
    ensures
        r is Err || (4 <= cost <= 31 && !password@.contains('\0')),
        r matches Ok(h) ==> hash_shape(h@, cost as int),
        r matches Ok(h) ==> password_matches(password@, h@),
{
    bcrypt::hash(password, cost)
}

/// `bcrypt::verify`. Its answer is named; a password holding `'\0'` is
/// always an error, since rehashing it is refused. The hash must be ASCII:
/// `split_hash` slices the third `$`-separated part at byte 22 without
/// checking for a character boundary, and panics on a multi-byte character
/// there. For an ASCII hash every slice is on a boundary, the 22 salt
/// characters decode to 16 bytes or to an error, and the password handed to
/// the cipher is cut to 72 bytes, so no assertion of the cipher fails.
/// On a well-formed hash every step succeeds: the split gives the version,
/// the cost and 53 characters, the cost parses and lies in `4..=31`, both
/// base64 parts decode (base64 0.12 with the bcrypt configuration refuses
/// only other symbols and nonzero trailing bits), and a password without
/// NUL is hashed again, so the answer is `Ok`.
#[verifier::external_body]
pub(crate) fn bcrypt_verify(password: &str, hash: &str) -> (r: Result<bool, bcrypt::BcryptError>)
    requires
        is_ascii_chars(hash@),
    ensures
        match r {
            Ok(b) => bcrypt_verify_outcome(password@, hash@) == Some(b),
            Err(_) => bcrypt_verify_outcome(password@, hash@) is None,
        },
        password@.contains('\0') ==> r is Err,
        r is Ok || !well_formed_hash(hash@) || password@.contains('\0'),
{
    bcrypt::verify(password, hash)
}

/// Checks a password against a stored hash: `Some(true)` when it is the
/// password that was hashed, `Some(false)` when it is not, `None` when the
/// hash is not ASCII or cannot be read, or the password cannot be hashed.
pub fn check_password(password: &str, hash: &str) -> (r: Option<bool>)
    ensures
        r == verify_outcome(password@, hash@),
        r matches Some(b) ==> bcrypt_verify_outcome(password@, hash@) == Some(b),
        r == Some(true) ==> password_matches(password@, hash@),
        is_ascii_chars(hash@) ==> r == bcrypt_verify_outcome(password@, hash@),
        password@.contains('\0') ==> r is None,
        !is_ascii_chars(hash@) ==> r is None,
        well_formed_hash(hash@) && !password@.contains('\0') ==> r is Some,
{
    proof {
        if well_formed_hash(hash@) {
            lemma_well_formed_hash_is_ascii(hash@);
        }
    }
    if !hash.is_ascii() {
        return None;
    }
    match bcrypt_verify(password, hash) {
        Ok(b) => Some(b),
        Err(_) => None,
    }
}

} // verus!
