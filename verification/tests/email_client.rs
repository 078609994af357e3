use zero2prod::domain::SubscriberEmail;
use zero2prod::email_client::{email_url, SendEmailRequest};

#[test]
fn email_endpoint_appends_the_path() {
    assert_eq!(email_url("http://127.0.0.1:8080"), "http://127.0.0.1:8080/email");
    assert_eq!(email_url(""), "/email");
}

#[test]
fn request_carries_the_message() {
    let sender = SubscriberEmail::try_from("sender@example.com".to_string()).unwrap();
    let recipient = SubscriberEmail::try_from("to@example.com".to_string()).unwrap();
    let r = SendEmailRequest::new(&sender, &recipient, "hi", "<p>hello</p>", "hello");
    assert_eq!(r.from, "sender@example.com");
    assert_eq!(r.to, "to@example.com");
    assert_eq!(r.subject, "hi");
    assert_eq!(r.html_body, "<p>hello</p>");
    assert_eq!(r.text_body, "hello");
}
