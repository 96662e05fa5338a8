//! Validation and normalization of raw subscriber input: email-address
//! syntax and display-name policy. Pure; no side effects.

use vstd::prelude::*;
use vstd::string::StrSliceExecFns;

use crate::error::ValidationError;

verus! {

/// Acceptance of a string as an email address, as decided by the HTML5
/// email-syntax check this library relies on. A function of the characters
/// alone.
pub uninterp spec fn email_ok(s: Seq<char>) -> bool;

/// The number of user-perceived characters (extended grapheme clusters)
/// in a string. A function of the characters alone.
pub uninterp spec fn grapheme_count(s: Seq<char>) -> nat;

/// Whether a character has the Unicode `White_Space` property.
pub uninterp spec fn is_unicode_whitespace(c: char) -> bool;

/// The most user-perceived characters a display name may have.
pub const NAME_MAX_GRAPHEMES: usize = 256;

/// The fixed forbidden-character set for display names.
pub open spec fn forbidden_name_char(c: char) -> bool {
    c == '/' || c == '(' || c == ')' || c == '"' || c == '<' || c == '>' || c == '\\' || c == '{'
        || c == '}'
}

/// A name is empty after trimming exactly when every character is whitespace.
pub open spec fn name_trims_empty(s: Seq<char>) -> bool {
    forall|i: int| 0 <= i < s.len() ==> is_unicode_whitespace(#[trigger] s[i])
}

pub open spec fn name_has_forbidden_char(s: Seq<char>) -> bool {
    exists|i: int| 0 <= i < s.len() && forbidden_name_char(#[trigger] s[i])
}

/// Display-name policy: non-empty after trimming, at most 256 graphemes,
/// no character from the forbidden set.
pub open spec fn name_ok(s: Seq<char>) -> bool {
    &&& grapheme_count(s) <= NAME_MAX_GRAPHEMES
    &&& !name_trims_empty(s)
    &&& !name_has_forbidden_char(s)
}

/// The rule an out-of-policy name is reported under, checked in the same
/// order the checks run: length, then emptiness, then the forbidden set.
pub open spec fn name_error(s: Seq<char>) -> ValidationError {
    if grapheme_count(s) > NAME_MAX_GRAPHEMES {
        ValidationError::NameTooLong
    } else if name_trims_empty(s) {
        ValidationError::NameEmpty
    } else {
        ValidationError::NameForbiddenCharacter
    }
}

/// Relies on validator's `validate_email` (HTML5 email syntax): the result
/// depends on the characters alone, and an empty string or one without `@`
/// is never accepted.
#[verifier::external_body]
pub(crate) fn email_syntax_ok(s: &str) -> (r: bool)
    ensures
        r == email_ok(s@),
        s@.len() == 0 ==> !r,
        !s@.contains('@') ==> !r,
{
    validator::validate_email(s)
}

/// Relies on unicode-segmentation's `graphemes(true)` (extended grapheme
/// clusters): the count depends on the characters alone.
#[verifier::external_body]
fn count_graphemes(s: &str) -> (n: usize)
    ensures
        n == grapheme_count(s@),
{
    unicode_segmentation::UnicodeSegmentation::graphemes(s, true).count()
}

/// Relies on `char::is_whitespace`: true exactly for characters with the
/// Unicode `White_Space` property.
#[verifier::external_body]
fn char_is_whitespace(c: char) -> (r: bool)
    ensures
        r == is_unicode_whitespace(c),
{
    c.is_whitespace()
}

fn all_whitespace(s: &str) -> (r: bool)
    ensures
        r == name_trims_empty(s@),
{
    let len = s.unicode_len();
    let mut i: usize = 0;
    while i < len
        invariant
            len == s@.len(),
            i <= len,
            forall|j: int| 0 <= j < i ==> is_unicode_whitespace(#[trigger] s@[j]),
        decreases len - i,
    {
        if !char_is_whitespace(s.get_char(i)) {
            return false;
        }
        i += 1;
    }
    true
}

fn is_forbidden_char(c: char) -> (r: bool)
    ensures
        r == forbidden_name_char(c),
{
    c == '/' || c == '(' || c == ')' || c == '"' || c == '<' || c == '>' || c == '\\' || c == '{'
        || c == '}'
}

fn has_forbidden_char(s: &str) -> (r: bool)
    ensures
        r == name_has_forbidden_char(s@),
{
    let len = s.unicode_len();
    let mut i: usize = 0;
    while i < len
        invariant
            len == s@.len(),
            i <= len,
            forall|j: int| 0 <= j < i ==> !forbidden_name_char(#[trigger] s@[j]),
        decreases len - i,
    {
        if is_forbidden_char(s.get_char(i)) {
            return true;
        }
        i += 1;
    }
    false
}

/// Accepts a string exactly when it satisfies email-address syntax; no
/// further semantic verification is attempted.
pub fn validate_email_address(email: &str) -> (r: Result<(), ValidationError>)
    ensures
        r is Ok <==> email_ok(email@),
        r matches Err(e) ==> e == ValidationError::InvalidEmail,
{
    if email_syntax_ok(email) {
        Ok(())
    } else {
        Err(ValidationError::InvalidEmail)
    }
}

/// Accepts a display name exactly when it is within the grapheme limit,
/// non-empty after trimming, and free of forbidden characters; a rejected
/// name is reported under the first rule it violates.
pub fn validate_name(name: &str) -> (r: Result<(), ValidationError>)
    ensures
        r is Ok <==> name_ok(name@),
        r matches Err(e) ==> e == name_error(name@),
{
    if count_graphemes(name) > NAME_MAX_GRAPHEMES {
        return Err(ValidationError::NameTooLong);
    }
    if all_whitespace(name) {
        return Err(ValidationError::NameEmpty);
    }
    if has_forbidden_char(name) {
        return Err(ValidationError::NameForbiddenCharacter);
    }
    Ok(())
}

} // verus!
