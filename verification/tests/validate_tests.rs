use todo_users::validate::{is_email_valid, is_not_empty, verify_and_match_password};

#[test]
fn empty_string_is_empty() {
    assert!(!is_not_empty(""));
}

#[test]
fn whitespace_only_is_empty() {
    assert!(!is_not_empty("   "));
    assert!(!is_not_empty("\t\n "));
}

#[test]
fn surrounded_text_is_not_empty() {
    assert!(is_not_empty(" a "));
    assert!(is_not_empty("John"));
}

#[test]
fn plain_address_is_valid() {
    assert!(is_email_valid("user@example.com"));
}

#[test]
fn address_with_symbols_is_valid() {
    assert!(is_email_valid("user.name+tag@mail-server.org"));
    assert!(is_email_valid("a_b%c@x.co"));
}

#[test]
fn dotted_domain_is_valid() {
    assert!(is_email_valid("user@example.co.uk"));
    assert!(is_email_valid("user@mail..com"));
}

#[test]
fn four_letter_label_is_valid() {
    assert!(is_email_valid("user@example.info"));
}

#[test]
fn uppercase_is_rejected() {
    assert!(!is_email_valid("USER@example.com"));
    assert!(!is_email_valid("user@EXAMPLE.com"));
}

#[test]
fn missing_parts_are_rejected() {
    assert!(!is_email_valid(""));
    assert!(!is_email_valid("userexample.com"));
    assert!(!is_email_valid("@example.com"));
    assert!(!is_email_valid("user@.com"));
    assert!(!is_email_valid("user@examplecom"));
}

#[test]
fn bad_final_label_is_rejected() {
    assert!(!is_email_valid("user@example.c"));
    assert!(!is_email_valid("user@example.toolong"));
    assert!(!is_email_valid("user@example.c0m"));
}

#[test]
fn two_at_signs_are_rejected() {
    assert!(!is_email_valid("user@host@example.com"));
}

#[test]
fn short_password_is_rejected() {
    let r = verify_and_match_password("abc", "abc");
    assert_eq!(r.unwrap_err(), "Password should have characters between 6 to 12");
}

#[test]
fn long_password_is_rejected() {
    let r = verify_and_match_password("abcdefghijklm", "abcdefghijklm");
    assert_eq!(r.unwrap_err(), "Password should have characters between 6 to 12");
}

#[test]
fn mismatched_confirmation_is_rejected() {
    let r = verify_and_match_password("abcdef", "abcdez");
    assert_eq!(r.unwrap_err(), "Password don't match");
}

#[test]
fn matching_password_within_bounds_is_accepted() {
    assert!(verify_and_match_password("abcdef", "abcdef").is_ok());
    assert!(verify_and_match_password("abcdefghijkl", "abcdefghijkl").is_ok());
}

#[test]
fn password_length_counts_bytes() {
    // Four two-byte characters: eight bytes, inside the bounds.
    assert!(verify_and_match_password("ññññ", "ññññ").is_ok());
    // Three two-byte characters: six bytes, inside the bounds.
    assert!(verify_and_match_password("ñññ", "ñññ").is_ok());
    // Two two-byte characters: four bytes, too short.
    assert!(verify_and_match_password("ññ", "ññ").is_err());
}
