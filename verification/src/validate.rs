//! Field-level validation of a contact-form submission.
//!
//! The rules are checked in a fixed order and the first failure wins: name
//! trimmed non-empty, name at most 100 bytes, email trimmed non-empty, email
//! containing `@`, email at most 255 bytes, message trimmed non-empty,
//! message at most 1000 bytes. Length limits are measured on the raw,
//! untrimmed UTF-8 byte length, and the email check is purely syntactic.

use vstd::prelude::*;

use crate::form::{FormData, FormDataView};

verus! {

/// Maximum byte length of a name.
pub const NAME_MAX: usize = 100;

/// Maximum byte length of an email address.
pub const EMAIL_MAX: usize = 255;

/// Maximum byte length of a message.
pub const MESSAGE_MAX: usize = 1000;

/// The reason a submission was rejected; one variant per validation rule.
#[derive(Clone, Copy, Debug, PartialEq, Eq, Structural)]
pub enum ValidationError {
    EmptyName,
    NameTooLong,
    EmptyEmail,
    InvalidEmail,
    EmailTooLong,
    EmptyMessage,
    MessageTooLong,
}

/// A character with the Unicode `White_Space` property: exactly the
/// characters that trimming removes from the ends of a string.
pub open spec fn is_space(c: char) -> bool {
    let u = c as u32;
    (0x09 <= u && u <= 0x0D) || u == 0x20 || u == 0x85 || u == 0xA0 || u == 0x1680 || (0x2000 <= u
        && u <= 0x200A) || u == 0x2028 || u == 0x2029 || u == 0x202F || u == 0x205F || u == 0x3000
}

/// A string is empty after trimming exactly when every character in it is
/// whitespace; this also covers the string with no characters at all.
pub open spec fn trimmed_empty(s: Seq<char>) -> bool {
    forall|i: int| 0 <= i < s.len() ==> is_space(#[trigger] s[i])
}

/// The string contains at least one `@` character.
pub open spec fn has_at_sign(s: Seq<char>) -> bool {
    exists|i: int| 0 <= i < s.len() && #[trigger] s[i] == '@'
}

/// The length of the string's UTF-8 encoding in bytes, as `str::len`
/// measures it.
pub open spec fn byte_len(s: Seq<char>) -> nat {
    vstd::utf8::encode_utf8(s).len()
}

/// The validation rules, applied in order with the first failure winning.
pub open spec fn validate_spec(d: FormDataView) -> Result<(), ValidationError> {
    if trimmed_empty(d.name) {
        Err(ValidationError::EmptyName)
    } else if byte_len(d.name) > NAME_MAX {
        Err(ValidationError::NameTooLong)
    } else if trimmed_empty(d.email) {
        Err(ValidationError::EmptyEmail)
    } else if !has_at_sign(d.email) {
        Err(ValidationError::InvalidEmail)
    } else if byte_len(d.email) > EMAIL_MAX {
        Err(ValidationError::EmailTooLong)
    } else if trimmed_empty(d.message) {
        Err(ValidationError::EmptyMessage)
    } else if byte_len(d.message) > MESSAGE_MAX {
        Err(ValidationError::MessageTooLong)
    } else {
        Ok(())
    }
}

/// Law: each rule failure surfaces as its own error, the rules are checked
/// in the fixed order with the first failure winning, and an input passes
/// exactly when it breaks none of the seven rules.
pub proof fn lemma_validate_rules(d: FormDataView)
    ensures
        validate_spec(d) == Err::<(), ValidationError>(ValidationError::EmptyName) <==> trimmed_empty(
            d.name,
        ),
        validate_spec(d) == Err::<(), ValidationError>(ValidationError::NameTooLong) <==> (
        !trimmed_empty(d.name) && byte_len(d.name) > NAME_MAX),
        validate_spec(d) == Err::<(), ValidationError>(ValidationError::EmptyEmail) <==> (
        !trimmed_empty(d.name) && byte_len(d.name) <= NAME_MAX && trimmed_empty(d.email)),
        validate_spec(d) == Err::<(), ValidationError>(ValidationError::InvalidEmail) <==> (
        !trimmed_empty(d.name) && byte_len(d.name) <= NAME_MAX && !trimmed_empty(d.email)
            && !has_at_sign(d.email)),
        validate_spec(d) == Err::<(), ValidationError>(ValidationError::EmailTooLong) <==> (
        !trimmed_empty(d.name) && byte_len(d.name) <= NAME_MAX && !trimmed_empty(d.email)
            && has_at_sign(d.email) && byte_len(d.email) > EMAIL_MAX),
        validate_spec(d) == Err::<(), ValidationError>(ValidationError::EmptyMessage) <==> (
        !trimmed_empty(d.name) && byte_len(d.name) <= NAME_MAX && !trimmed_empty(d.email)
            && has_at_sign(d.email) && byte_len(d.email) <= EMAIL_MAX && trimmed_empty(d.message)),
        validate_spec(d) == Err::<(), ValidationError>(ValidationError::MessageTooLong) <==> (
        !trimmed_empty(d.name) && byte_len(d.name) <= NAME_MAX && !trimmed_empty(d.email)
            && has_at_sign(d.email) && byte_len(d.email) <= EMAIL_MAX && !trimmed_empty(d.message)
            && byte_len(d.message) > MESSAGE_MAX),
        validate_spec(d) is Ok <==> (!trimmed_empty(d.name) && byte_len(d.name) <= NAME_MAX
            && !trimmed_empty(d.email) && has_at_sign(d.email) && byte_len(d.email) <= EMAIL_MAX
            && !trimmed_empty(d.message) && byte_len(d.message) <= MESSAGE_MAX),
{
}

fn char_is_space(c: char) -> (r: bool)
    ensures
        r == is_space(c),
{
    let u = c as u32;
    (0x09 <= u && u <= 0x0D) || u == 0x20 || u == 0x85 || u == 0xA0 || u == 0x1680 || (0x2000 <= u
        && u <= 0x200A) || u == 0x2028 || u == 0x2029 || u == 0x202F || u == 0x205F || u == 0x3000
}

fn str_trimmed_empty(s: &str) -> (r: bool)
    ensures
        r == trimmed_empty(s@),
{
    let n = s.unicode_len();
    let mut i: usize = 0;
    while i < n
        invariant
            n == s@.len(),
            i <= n,
            forall|j: int| 0 <= j < i ==> is_space(#[trigger] s@[j]),
        decreases n - i,
    {
        let c = s.get_char(i);
        if !char_is_space(c) {
            return false;
        }
        i = i + 1;
    }
    true
}

fn str_has_at_sign(s: &str) -> (r: bool)
    ensures
        r == has_at_sign(s@),
{
    let n = s.unicode_len();
    let mut i: usize = 0;
    while i < n
        invariant
            n == s@.len(),
            i <= n,
            forall|j: int| 0 <= j < i ==> #[trigger] s@[j] != '@',
        decreases n - i,
    {
        let c = s.get_char(i);
        if c == '@' {
            return true;
        }
        i = i + 1;
    }
    false
}

fn str_byte_len(s: &str) -> (n: usize)
    ensures
        n == byte_len(s@),
{
    broadcast use vstd::slice::group_slice_axioms;

    s.as_bytes().len()
}

/// Check a submission against the validation rules, in order, first failure
/// winning. Deterministic and free of side effects.
pub fn validate_form_data(data: &FormData) -> (r: Result<(), ValidationError>)
    ensures
        r == validate_spec(data@),
{
    if str_trimmed_empty(data.name.as_str()) {
        return Err(ValidationError::EmptyName);
    }
    if str_byte_len(data.name.as_str()) > NAME_MAX {
        return Err(ValidationError::NameTooLong);
    }
    if str_trimmed_empty(data.email.as_str()) {
        return Err(ValidationError::EmptyEmail);
    }
    if !str_has_at_sign(data.email.as_str()) {
        return Err(ValidationError::InvalidEmail);
    }
    if str_byte_len(data.email.as_str()) > EMAIL_MAX {
        return Err(ValidationError::EmailTooLong);
    }
    if str_trimmed_empty(data.message.as_str()) {
        return Err(ValidationError::EmptyMessage);
    }
    if str_byte_len(data.message.as_str()) > MESSAGE_MAX {
        return Err(ValidationError::MessageTooLong);
    }
    Ok(())
}

} // verus!
