//! Field rules of incoming requests: a minimum length in characters, an
//! e-mail address, and the role pattern.

use vstd::prelude::*;

verus! {

/// The pattern that a role must match.
pub open spec fn role_pattern() -> Seq<char> {
    "(User|Admin)"@
}

/// Whether `word` occurs in `text` as a contiguous run of characters.
pub open spec fn has_substring(text: Seq<char>, word: Seq<char>) -> bool {
    exists|i: int|
        0 <= i && i + word.len() <= text.len() && #[trigger] text.subrange(i, i + word.len())
            == word
}

/// A role is accepted when the role pattern matches somewhere in it, that is
/// when it contains `User` or `Admin`.
pub open spec fn role_accepted(role: Seq<char>) -> bool {
    has_substring(role, "User"@) || has_substring(role, "Admin"@)
}

/// What `validator::validate_email` answers for a text.
pub uninterp spec fn email_accepted(text: Seq<char>) -> bool;

/// Whether `regex::Regex::new` compiles a pattern.
pub uninterp spec fn regex_compiles(pattern: Seq<char>) -> bool;

/// What `regex::Regex::is_match` answers for a compiled pattern and a text.
pub uninterp spec fn regex_finds(pattern: Seq<char>, text: Seq<char>) -> bool;

#[verifier::external_type_specification]
#[verifier::external_body]
pub struct ExRegexError(regex::Error);

/// `validator::validate_length` with only a minimum: `HasLen` for `&str`
/// counts `chars()`, so the answer is whether the text has at least `min`
/// characters.
#[verifier::external_body]
fn length_at_least(text: &str, min: u64) -> (ok: bool)
    ensures
        ok == (text@.len() >= min),
{
    validator::validate_length(
        validator::Validator::Length { min: Some(min), max: None, equal: None },
        text,
    )
}

/// `validator::validate_email`. Its answer is named; the source returns
/// `false` first thing for a text without `@`, and that much is stated.
#[verifier::external_body]
fn email_check(text: &str) -> (ok: bool)
    ensures
        ok == email_accepted(text@),
        !text@.contains('@') ==> !ok,
{
    validator::validate_email(text)
}

/// `regex::Regex::new` and, on success, `Regex::is_match`, which answers
/// whether the pattern matches anywhere in the text. For the role pattern,
/// an alternation of two literals, that is whether the text contains one of
/// them; for other patterns the answer is only named.
#[verifier::external_body]
fn regex_match(pattern: &str, text: &str) -> (r: Result<bool, regex::Error>)
    ensures
        r is Ok <==> regex_compiles(pattern@),
        r matches Ok(found) ==> found == regex_finds(pattern@, text@),
        r is Ok || pattern@ != role_pattern(),
        r matches Ok(found) ==> (pattern@ == role_pattern() ==> found == role_accepted(text@)),
{
    match regex::Regex::new(pattern) {
        Ok(re) => Ok(re.is_match(text)),
        Err(e) => Err(e),
    }
}

proof fn lemma_has_substring_of_length(text: Seq<char>, word: Seq<char>, n: int)
    requires
        word.len() == n,
    ensures
        has_substring(text, word) <==> exists|i: int|
            0 <= i && i + n <= text.len() && #[trigger] text.subrange(i, i + n) == word,
{
    if has_substring(text, word) {
        let i = choose|i: int|
            0 <= i && i + word.len() <= text.len() && #[trigger] text.subrange(i, i + word.len())
                == word;
        assert(text.subrange(i, i + n) == word);
    }
    if exists|i: int| 0 <= i && i + n <= text.len() && #[trigger] text.subrange(i, i + n) == word {
        let i = choose|i: int| 0 <= i && i + n <= text.len() && #[trigger] text.subrange(i, i + n) == word;
        assert(text.subrange(i, i + word.len()) == word);
    }
}

/// Whether a text has at least three characters.
pub fn long_enough(text: &str) -> (ok: bool)
    ensures
        ok == (text@.len() >= 3),
{
    length_at_least(text, 3)
}

/// Whether a text is an e-mail address.
pub fn valid_email(text: &str) -> (ok: bool)
    ensures
        ok == email_accepted(text@),
        !text@.contains('@') ==> !ok,
{
    email_check(text)
}

/// Whether a role matches the role pattern.
pub fn valid_role(role: &str) -> (ok: bool)
    ensures
        ok == role_accepted(role@),
        ok == regex_finds("(User|Admin)"@, role@),
        ok <==> ((exists|i: int|
            0 <= i && i + 4 <= role@.len() && #[trigger] role@.subrange(i, i + 4) == "User"@) || (
        exists|i: int|
            0 <= i && i + 5 <= role@.len() && #[trigger] role@.subrange(i, i + 5) == "Admin"@)),
{
    let pattern = "(User|Admin)";
    proof {
        reveal_strlit("(User|Admin)");
        reveal_strlit("User");
        reveal_strlit("Admin");
        lemma_has_substring_of_length(role@, "User"@, 4);
        lemma_has_substring_of_length(role@, "Admin"@, 5);
    }
    match regex_match(pattern, role) {
        Ok(found) => found,
        Err(_) => false,
    }
}

} // verus!
