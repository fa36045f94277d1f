use capabilityapi::model::FormData;
use capabilityapi::model::User;
use capabilityapi::model::validate;

#[test]
fn create_a_user_ok() {
    let name = "Kenneth".to_string();
    let password = "password".to_string();

    let u = User { name, password };

    assert_eq!("Kenneth".to_string(), u.name);
    assert_eq!("password".to_string(), u.password);
}

#[test]
fn model_create_a_user_ok() {
    let name = "Kenneth".to_string();
    let password = "password".to_string();

    let u = User { name, password };

    assert_eq!("Kenneth".to_string(), u.name);
    assert_eq!("password".to_string(), u.password);
}

#[test]
fn validate_name() {
    let name = "Kenneth".to_string();

    assert!(validate(name).is_ok());
}

#[test]
fn a_name_longer_than_256_is_rejected() {
    let name = "å".repeat(257);
    assert!(validate(name).is_err());
}

#[test]
fn empty_string_is_rejected() {
    let name = "".to_string();
    assert!(validate(name).is_err());
}

#[test]
fn name_containing_an_invalid_char_is_rejected() {
    for name in &['/', '(', ')', '"', '<', '>', '\\', '{', '}'] {
        let name = name.to_string();
        assert!(validate(name).is_err());
    }
}

#[test]
fn whitespace_only_name_is_rejected() {
    assert!(validate(" \t\n ".to_string()).is_err());
    assert!(validate("Kenneth the 3rd".to_string()).is_ok());
}

#[test]
fn rejection_message_names_the_input() {
    let r = validate("(".to_string());
    assert_eq!(r.unwrap_err(), "( not a valid username");
}

#[test]
fn length_is_counted_in_graphemes_not_chars() {
    // 150 grapheme clusters of two chars each: 300 chars, yet short enough.
    let name = "e\u{301}".repeat(150);
    assert_eq!(name.chars().count(), 300);
    assert!(validate(name).is_ok());

    // 257 one-char clusters are one too many.
    assert!(validate("x".repeat(257)).is_err());
    // 256 are still fine.
    assert!(validate("x".repeat(256)).is_ok());
}

#[test]
fn form_data_with_valid_fields_is_accepted() {
    let form = FormData { name: "Kenneth".to_string(), password: "password".to_string() };
    let new_user = form.try_into().unwrap();
    assert_eq!(new_user.name.as_str(), "Kenneth");
    assert_eq!(new_user.password.as_str(), "password");
}

#[test]
fn form_data_with_invalid_name_is_rejected() {
    let form = FormData { name: "{oops}".to_string(), password: "password".to_string() };
    let e = form.try_into().unwrap_err();
    assert_eq!(e, "{oops} not a valid username");

    let form = FormData { name: "Kenneth".to_string(), password: "".to_string() };
    let e = form.try_into().unwrap_err();
    assert_eq!(e, " not a valid username");
}

#[test]
fn describe_renders_both_fields() {
    let u = User { name: "Kenneth".to_string(), password: "password".to_string() };
    assert_eq!(u.describe(), "User => name: Kenneth, password: password");
}
