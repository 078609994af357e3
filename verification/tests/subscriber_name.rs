use zero2prod::domain::subscriber_name::{check_name, is_valid_name};
use zero2prod::domain::SubscriberName;

#[test]
fn a_256_grapheme_long_name_is_valid() {
    let name = "a".repeat(256);
    assert!(SubscriberName::try_from(name).is_ok());
}

#[test]
fn name_longer_than_256_rejected() {
    let name = "a".repeat(257);
    assert!(SubscriberName::try_from(name).is_err());
}

#[test]
fn whitespace_only_names() {
    let name = " ".to_string();
    assert!(SubscriberName::try_from(name).is_err());
}

#[test]
fn names_with_invalid_characters_rejected() {
    for name in &['/', '(', ')', '"', '<', '>', '\\', '{', '}'] {
        let name = name.to_string();
        assert!(SubscriberName::try_from(name).is_err());
    }
}

#[test]
fn empty_name_is_rejected() {
    assert!(!is_valid_name(""));
    assert!(SubscriberName::try_from(String::new()).is_err());
}

#[test]
fn unicode_whitespace_only_name_is_rejected() {
    assert!(!is_valid_name("\t\u{a0}\u{2003}\u{3000}\n"));
}

#[test]
fn name_with_inner_spaces_is_valid() {
    assert!(is_valid_name("  henry figglebottom "));
}

#[test]
fn name_length_counts_graphemes_not_chars() {
    // each "e\u{301}" is one grapheme made of two chars
    let name = "e\u{301}".repeat(256);
    assert!(is_valid_name(&name));
    let name = "e\u{301}".repeat(257);
    assert!(!is_valid_name(&name));
}

#[test]
fn check_name_applies_the_rule_to_the_given_count() {
    assert!(check_name("ursula", 256));
    assert!(!check_name("ursula", 257));
    assert!(!check_name("   ", 3));
    assert!(!check_name("le{guin", 7));
}

#[test]
fn accepted_name_keeps_its_text() {
    let name = SubscriberName::try_from("Ursula Le Guin".to_string()).unwrap();
    assert_eq!(name.as_ref(), "Ursula Le Guin");
}

#[test]
fn refusal_messages() {
    assert_eq!(
        SubscriberName::try_from("a/b".to_string()).unwrap_err(),
        "Subscirber name is invalid"
    );
    assert_eq!(
        SubscriberName::try_from_str("a/b").unwrap_err(),
        "Subscriber name is invalid"
    );
    assert_eq!(SubscriberName::try_from_str("le guin").unwrap().as_ref(), "le guin");
}

#[test]
fn name_derefs_and_converts_to_its_text() {
    let name = SubscriberName::try_from("le guin".to_string()).unwrap();
    let as_str: &str = AsRef::<str>::as_ref(&name);
    assert_eq!(as_str, "le guin");
    assert_eq!(&*name, "le guin");
    assert!(name.starts_with("le"));
}

#[test]
fn name_converts_through_the_std_traits() {
    let from_string: Result<SubscriberName, String> = "le guin".to_string().try_into();
    assert_eq!(from_string.unwrap().as_ref(), "le guin");
    let from_str: Result<SubscriberName, String> = "le guin".try_into();
    assert_eq!(from_str.unwrap().as_ref(), "le guin");
    let refused: Result<SubscriberName, String> = "a{b".try_into();
    assert_eq!(refused.unwrap_err(), "Subscriber name is invalid");
    let refused = <SubscriberName as TryFrom<String>>::try_from(" ".to_string());
    assert_eq!(refused.unwrap_err(), "Subscirber name is invalid");
}
