use fake::faker::internet::en::SafeEmail;
use fake::Fake;
use zero2prod::domain::subscriber_email::domain_has_dot;
use zero2prod::domain::SubscriberEmail;

#[test]
fn empty_string_is_rejected() {
    let email = "".to_string();
    assert!(SubscriberEmail::try_from(email).is_err());
}

#[test]
fn email_missing_at_symbol_is_rejected() {
    let email = "ursuladomain.com".to_string();
    assert!(SubscriberEmail::try_from(email).is_err());
}

#[test]
fn email_missing_subject_is_rejected() {
    let email = "@domain.com".to_string();
    assert!(SubscriberEmail::try_from(email).is_err());
}

#[test]
fn is_valid_email() {
    let email = "someuser@gmail.com".to_string();
    assert!(SubscriberEmail::try_from(email).is_ok());
}

#[test]
fn missing_dot_com() {
    let email = "someuser@gmail".to_string();
    assert!(SubscriberEmail::try_from(email).is_err());
}

#[test]
fn valid_emails_are_passed_successfully() {
    let email: String = SafeEmail().fake();
    assert!(SubscriberEmail::try_from(email).is_ok());
}

#[test]
fn accepted_email_keeps_its_text() {
    let email = SubscriberEmail::try_from("figgysmalls@gmail.com".to_string()).unwrap();
    assert_eq!(email.as_ref(), "figgysmalls@gmail.com");
    assert_eq!(email.clone().as_ref(), "figgysmalls@gmail.com");
}

#[test]
fn refusal_message() {
    assert_eq!(
        SubscriberEmail::try_from("ursula_le_guin.com".to_string()).unwrap_err(),
        "value is not a valid email"
    );
}

#[test]
fn domain_dot_is_looked_for_in_the_second_field_only() {
    assert!(domain_has_dot("a@b.c"));
    assert!(!domain_has_dot("a.b@c"));
    assert!(!domain_has_dot("a@b@c.d"));
    assert!(domain_has_dot("a@.b@c"));
    assert!(!domain_has_dot("no at sign."));
    assert!(!domain_has_dot(""));
}

#[test]
fn check_validated_decides_on_the_given_answer() {
    assert_eq!(SubscriberEmail::check_validated("someuser@gmail.com", true), Ok(()));
    assert_eq!(
        SubscriberEmail::check_validated("someuser@gmail", true),
        Err("value is not a valid email".to_string())
    );
    assert!(SubscriberEmail::check_validated("someuser@gmail.com", false).is_err());
}

#[test]
fn email_derefs_and_converts_to_its_text() {
    let email = SubscriberEmail::try_from("ab@cd.ef".to_string()).unwrap();
    let as_str: &str = AsRef::<str>::as_ref(&email);
    assert_eq!(as_str, "ab@cd.ef");
    assert_eq!(&*email, "ab@cd.ef");
    assert_eq!(email.len(), 8);
}

#[test]
fn email_converts_through_the_std_traits() {
    let email: Result<SubscriberEmail, String> = "ab@cd.ef".to_string().try_into();
    assert_eq!(email.unwrap().as_ref(), "ab@cd.ef");
    let refused: Result<SubscriberEmail, String> = "ab@cd".to_string().try_into();
    assert!(refused.is_err());
}
