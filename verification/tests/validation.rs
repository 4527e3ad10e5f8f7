use contact_form::form::FormData;
use contact_form::validate::{validate_form_data, ValidationError};

fn form(name: &str, email: &str, message: &str) -> FormData {
    FormData { name: name.to_string(), email: email.to_string(), message: message.to_string() }
}

fn valid_form() -> FormData {
    form("Ada Lovelace", "ada@example.com", "Hello")
}

#[test]
fn accepts_valid_form() {
    assert_eq!(validate_form_data(&valid_form()), Ok(()));
}

#[test]
fn rejects_empty_name() {
    let d = form("", "a@b.com", "hi");
    assert_eq!(validate_form_data(&d), Err(ValidationError::EmptyName));
}

#[test]
fn rejects_whitespace_only_name() {
    let d = form("   ", "a@b.com", "hi");
    assert_eq!(validate_form_data(&d), Err(ValidationError::EmptyName));
}

#[test]
fn rejects_unicode_whitespace_only_name() {
    let d = form("\u{00A0}\u{2003}\t", "a@b.com", "hi");
    assert_eq!(validate_form_data(&d), Err(ValidationError::EmptyName));
}

#[test]
fn name_of_exactly_100_bytes_passes() {
    let d = form(&"a".repeat(100), "a@b.com", "hi");
    assert_eq!(validate_form_data(&d), Ok(()));
}

#[test]
fn name_of_101_bytes_fails() {
    let d = form(&"a".repeat(101), "a@b.com", "hi");
    assert_eq!(validate_form_data(&d), Err(ValidationError::NameTooLong));
}

#[test]
fn name_length_counts_bytes_not_characters() {
    // 51 two-byte characters: 51 characters but 102 bytes, over the limit.
    let d = form(&"\u{00E9}".repeat(51), "a@b.com", "hi");
    assert_eq!(validate_form_data(&d), Err(ValidationError::NameTooLong));
    // 50 two-byte characters: exactly 100 bytes, within the limit.
    let d = form(&"\u{00E9}".repeat(50), "a@b.com", "hi");
    assert_eq!(validate_form_data(&d), Ok(()));
}

#[test]
fn rejects_empty_email() {
    let d = form("Bob", "", "hi");
    assert_eq!(validate_form_data(&d), Err(ValidationError::EmptyEmail));
}

#[test]
fn rejects_whitespace_only_email() {
    let d = form("Bob", " \t ", "hi");
    assert_eq!(validate_form_data(&d), Err(ValidationError::EmptyEmail));
}

#[test]
fn rejects_email_without_at_sign() {
    let d = form("Bob", "not-an-email", "hi");
    assert_eq!(validate_form_data(&d), Err(ValidationError::InvalidEmail));
}

#[test]
fn email_of_exactly_255_bytes_passes() {
    let local = "a".repeat(253);
    let email = format!("{}@b", local);
    assert_eq!(email.len(), 255);
    let d = form("Bob", &email, "hi");
    assert_eq!(validate_form_data(&d), Ok(()));
}

#[test]
fn email_of_256_bytes_fails() {
    let local = "a".repeat(254);
    let email = format!("{}@b", local);
    assert_eq!(email.len(), 256);
    let d = form("Bob", &email, "hi");
    assert_eq!(validate_form_data(&d), Err(ValidationError::EmailTooLong));
}

#[test]
fn rejects_empty_message() {
    let d = form("Bob", "a@b.com", "");
    assert_eq!(validate_form_data(&d), Err(ValidationError::EmptyMessage));
}

#[test]
fn rejects_whitespace_only_message() {
    let d = form("Bob", "a@b.com", " \n ");
    assert_eq!(validate_form_data(&d), Err(ValidationError::EmptyMessage));
}

#[test]
fn message_of_exactly_1000_bytes_passes() {
    let d = form("Bob", "a@b.com", &"m".repeat(1000));
    assert_eq!(validate_form_data(&d), Ok(()));
}

#[test]
fn message_of_1001_bytes_fails() {
    let d = form("Bob", "a@b.com", &"m".repeat(1001));
    assert_eq!(validate_form_data(&d), Err(ValidationError::MessageTooLong));
}

#[test]
fn first_failing_rule_wins() {
    // Both the name and the email are invalid: the name rule comes first.
    let d = form("", "not-an-email", "");
    assert_eq!(validate_form_data(&d), Err(ValidationError::EmptyName));
    // Name too long beats every email and message rule.
    let d = form(&"a".repeat(101), "", "");
    assert_eq!(validate_form_data(&d), Err(ValidationError::NameTooLong));
    // Empty email beats the missing at sign and the message rules.
    let d = form("Bob", "  ", "");
    assert_eq!(validate_form_data(&d), Err(ValidationError::EmptyEmail));
    // Missing at sign beats the email length rule only when the email is
    // short; an overlong email without an at sign still fails on the at sign.
    let d = form("Bob", &"x".repeat(256), "");
    assert_eq!(validate_form_data(&d), Err(ValidationError::InvalidEmail));
    // Email too long beats the message rules.
    let d = form("Bob", &format!("{}@b", "a".repeat(254)), "");
    assert_eq!(validate_form_data(&d), Err(ValidationError::EmailTooLong));
    // Empty message beats the message length rule.
    let d = form("Bob", "a@b.com", "   ");
    assert_eq!(validate_form_data(&d), Err(ValidationError::EmptyMessage));
}

#[test]
fn validation_messages_are_exact() {
    assert_eq!(ValidationError::EmptyName.message(), "Name cannot be empty");
    assert_eq!(ValidationError::NameTooLong.message(), "Name is too long (max 100 characters)");
    assert_eq!(ValidationError::EmptyEmail.message(), "Email cannot be empty");
    assert_eq!(ValidationError::InvalidEmail.message(), "Invalid email format");
    assert_eq!(ValidationError::EmailTooLong.message(), "Email is too long (max 255 characters)");
    assert_eq!(ValidationError::EmptyMessage.message(), "Message cannot be empty");
    assert_eq!(
        ValidationError::MessageTooLong.message(),
        "Message is too long (max 1000 characters)"
    );
}
