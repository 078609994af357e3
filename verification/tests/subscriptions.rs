use zero2prod::domain::NewSubscriber;
use zero2prod::routes::{encode_form, insert_finished, subscribe, FormData, SubscribeAction};

fn form(name: &str, email: &str) -> FormData {
    FormData { email: email.to_string(), name: name.to_string() }
}

#[test]
fn valid_form_is_stored() {
    match subscribe(form("henry figglebottom", "figgysmalls@gmail.com")) {
        SubscribeAction::Insert(s) => {
            assert_eq!(s.name.as_ref(), "henry figglebottom");
            assert_eq!(s.email.as_ref(), "figgysmalls@gmail.com");
        }
        SubscribeAction::Respond(status) => panic!("refused with {}", status),
    }
}

#[test]
fn invalid_forms_are_answered_with_400() {
    let long_name = "o".repeat(257);
    let cases = vec![
        form("\\", "ursula_le_guin@gmail.com"),
        form(&long_name, "something"),
        form("{}()", "le@gmail.com"),
        form("  ", "something"),
        form("fine", "something"),
        form("fine", "ursula_le_guin.com"),
        form("", ""),
    ];
    for case in cases {
        match subscribe(case) {
            SubscribeAction::Respond(status) => assert_eq!(status, 400),
            SubscribeAction::Insert(_) => panic!("an invalid form was accepted"),
        }
    }
}

#[test]
fn store_outcome_gives_the_status() {
    assert_eq!(insert_finished(true), 200);
    assert_eq!(insert_finished(false), 500);
}

#[test]
fn new_subscriber_checks_the_name_first() {
    let err = NewSubscriber::try_from(form("a/b", "bad")).unwrap_err();
    assert_eq!(err, "Subscirber name is invalid");
    let err = NewSubscriber::try_from(form("ab", "bad")).unwrap_err();
    assert_eq!(err, "value is not a valid email");
    assert!(NewSubscriber::try_from(form("ab", "ab@cd.ef")).is_ok());
}

#[test]
fn form_body_encodes_spaces_and_at_signs() {
    assert_eq!(
        encode_form("henry figglebottom", "figgysmalls@gmail.com"),
        "name=henry%20figglebottom&email=figgysmalls%40gmail.com"
    );
    assert_eq!(encode_form("li dicky\n", "lid@gmail.com\n"), "name=li%20dicky\n&email=lid%40gmail.com\n");
    assert_eq!(encode_form("", ""), "name=&email=");
    assert_eq!(encode_form("  ", "@@"), "name=%20%20&email=%40%40");
    assert_eq!(encode_form("a@b c", "a b@c"), "name=a@b%20c&email=a b%40c");
    assert_eq!(encode_form("é è", "ü@ö"), "name=é%20è&email=ü%40ö");
}

#[test]
fn new_subscriber_converts_through_the_std_traits() {
    let s: Result<NewSubscriber, String> = form("ab", "ab@cd.ef").try_into();
    assert!(s.is_ok());
    let s: Result<NewSubscriber, String> = form("a(b", "ab@cd.ef").try_into();
    assert_eq!(s.unwrap_err(), "Subscirber name is invalid");
}
