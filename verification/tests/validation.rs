use contact_book::models::{
    NewContact, NewContactErrors, FULL_NAME_REQUIRED, INVALID_EMAIL, INVALID_PHONE,
};
use contact_book::patterns::{
    matches_email_pattern, matches_phone_pattern, EMAIL_PATTERN, PHONE_PATTERN,
};

fn contact(full_name: &str, phone: Option<&str>, email: Option<&str>) -> NewContact {
    NewContact {
        full_name: full_name.to_string(),
        phone: phone.map(|text| text.to_string()),
        email: email.map(|text| text.to_string()),
    }
}

fn no_errors() -> NewContactErrors {
    NewContactErrors { full_name: None, phone: None, email: None }
}

#[test]
fn messages_read_as_the_form_shows_them() {
    assert_eq!(FULL_NAME_REQUIRED, "Full Name is required");
    assert_eq!(INVALID_PHONE, "Invalid phone number");
    assert_eq!(INVALID_EMAIL, "Invalid email address");
}

#[test]
fn patterns_read_as_regular_expressions() {
    assert_eq!(PHONE_PATTERN, r"^\+?[0-9 ]+$");
    assert_eq!(EMAIL_PATTERN, r"^[^@]+@[^@]+$");
}

#[test]
fn empty_submission_earns_only_the_name_message() {
    let errors = contact("", Some(""), Some("")).validate().unwrap_err();
    assert_eq!(
        errors,
        NewContactErrors {
            full_name: Some("Full Name is required".to_string()),
            phone: None,
            email: None,
        }
    );
}

#[test]
fn complete_submission_is_accepted() {
    let ada = contact("Ada Lovelace", Some("+44 20 7946"), Some("ada@example.com"));
    assert_eq!(ada.validate(), Ok(()));
}

#[test]
fn bad_phone_earns_only_the_phone_message() {
    let errors = contact("Bob", Some("not-a-phone"), Some("bob@x.com")).validate().unwrap_err();
    assert_eq!(
        errors,
        NewContactErrors {
            full_name: None,
            phone: Some("Invalid phone number".to_string()),
            email: None,
        }
    );
}

#[test]
fn bad_email_earns_only_the_email_message() {
    let errors = contact("Bob", Some("555 0100"), Some("bob.x.com")).validate().unwrap_err();
    assert_eq!(
        errors,
        NewContactErrors {
            full_name: None,
            phone: None,
            email: Some("Invalid email address".to_string()),
        }
    );
}

#[test]
fn every_broken_field_earns_its_message() {
    let errors = contact("", Some("12a"), Some("@")).validate().unwrap_err();
    assert_eq!(
        errors,
        NewContactErrors {
            full_name: Some("Full Name is required".to_string()),
            phone: Some("Invalid phone number".to_string()),
            email: Some("Invalid email address".to_string()),
        }
    );
}

#[test]
fn empty_name_is_rejected_whatever_else_is_given() {
    for phone in [None, Some(""), Some("+1 555"), Some("x")] {
        for email in [None, Some(""), Some("a@b"), Some("ab")] {
            let errors = contact("", phone, email).validate().unwrap_err();
            assert_eq!(errors.full_name, Some("Full Name is required".to_string()));
        }
    }
}

#[test]
fn name_is_not_trimmed() {
    assert_eq!(contact(" ", None, None).validate(), Ok(()));
}

#[test]
fn absent_and_empty_fields_are_not_held_to_a_pattern() {
    assert_eq!(contact("Ada", None, None).validate(), Ok(()));
    assert_eq!(contact("Ada", Some(""), Some("")).validate(), Ok(()));
    assert_eq!(contact("Ada", None, Some("")).validate(), Ok(()));
    assert_eq!(contact("Ada", Some(""), None).validate(), Ok(()));
}

#[test]
fn phone_numbers_are_digits_and_spaces_after_an_optional_plus() {
    for phone in ["0", "+0", " ", "+ ", "+44 20 7946", "555 0100", "0123456789", "  12  "] {
        assert!(matches_phone_pattern(phone), "{:?}", phone);
        assert_eq!(contact("Ada", Some(phone), None).validate(), Ok(()), "{:?}", phone);
    }
}

#[test]
fn other_texts_are_no_phone_numbers() {
    for phone in [
        "+", "++1", "1+", "+1+", "not-a-phone", "555-0100", "(555) 0100", "12a", "a12", "1.5",
        "1\n", "\n1", "1\t2", "+\u{0663}", "\u{0663}", "\u{ff11}", "1\u{a0}2",
    ] {
        assert!(!matches_phone_pattern(phone), "{:?}", phone);
        let errors = contact("Ada", Some(phone), None).validate().unwrap_err();
        assert_eq!(errors.phone, Some("Invalid phone number".to_string()), "{:?}", phone);
        assert_eq!(errors.full_name, None);
        assert_eq!(errors.email, None);
    }
}

#[test]
fn empty_text_is_no_phone_number_and_no_email_address() {
    assert!(!matches_phone_pattern(""));
    assert!(!matches_email_pattern(""));
}

#[test]
fn email_addresses_hold_one_at_sign_between_two_parts() {
    for email in [
        "a@b", "ada@example.com", "bob@x.com", " @ ", "a b@c d", "a\n@b", "a@b\n", "\u{e9}@\u{e9}",
        "first.last+tag@sub.domain.example",
    ] {
        assert!(matches_email_pattern(email), "{:?}", email);
        assert_eq!(contact("Ada", None, Some(email)).validate(), Ok(()), "{:?}", email);
    }
}

#[test]
fn other_texts_are_no_email_addresses() {
    for email in ["a", "ab.c", "@", "@b", "a@", "a@@b", "a@b@c", "@a@", "a@b@", "@@", "@a@b"] {
        assert!(!matches_email_pattern(email), "{:?}", email);
        let errors = contact("Ada", None, Some(email)).validate().unwrap_err();
        assert_eq!(errors.email, Some("Invalid email address".to_string()), "{:?}", email);
        assert_eq!(errors.full_name, None);
        assert_eq!(errors.phone, None);
    }
}

#[test]
fn a_phone_number_is_no_email_address_and_the_other_way_round() {
    assert!(matches_phone_pattern("+44 20"));
    assert!(!matches_email_pattern("+44 20"));
    assert!(matches_email_pattern("a@b"));
    assert!(!matches_phone_pattern("a@b"));
}

#[test]
fn validation_leaves_the_submission_as_it_came() {
    let ada = contact(" Ada ", Some(" 1 "), Some("A@B"));
    let before = ada.clone();
    assert_eq!(ada.validate(), Ok(()));
    assert_eq!(ada, before);
}

#[test]
fn validation_gives_the_same_answer_twice() {
    let bob = contact("Bob", Some("not-a-phone"), Some("bob@x.com"));
    assert_eq!(bob.validate(), bob.validate());
}

#[test]
fn defaults_are_empty() {
    assert_eq!(NewContact::default(), contact("", None, None));
    assert_eq!(NewContactErrors::default(), no_errors());
    assert!(NewContactErrors::default().is_empty());
}

#[test]
fn one_message_is_enough_to_be_not_empty() {
    let mut errors = no_errors();
    errors.email = Some("Invalid email address".to_string());
    assert!(!errors.is_empty());
}
