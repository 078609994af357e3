use crate::domain::SubscriberEmail;
use vstd::prelude::*;

verus! {

/// The body of a request to the email delivery service.
#[derive(Debug)]
pub struct SendEmailRequest {
    pub from: String,
    pub to: String,
    pub subject: String,
    pub html_body: String,
    pub text_body: String,
}

/// The endpoint that emails are posted to: the base URL followed by `/email`.
pub fn email_url(base_url: &str) -> (r: String)
    ensures
        r@ == base_url@ + "/email"@,
{
    proof {
        broadcast use vstd::string::group_string_axioms;
    }
    let mut url = base_url.to_string();
    url.append("/email");
    url
}

impl SendEmailRequest {
    /// The request that sends `subject` with both bodies from `sender` to
    /// `recipient`.
    pub fn new(
        sender: &SubscriberEmail,
        recipient: &SubscriberEmail,
        subject: &str,
        html_content: &str,
        text_content: &str,
    ) -> (r: SendEmailRequest)
        ensures
            r.from@ == sender@,
            r.to@ == recipient@,
            r.subject@ == subject@,
            r.html_body@ == html_content@,
            r.text_body@ == text_content@,
    {
        proof {
            broadcast use vstd::string::group_string_axioms;
        }
        SendEmailRequest {
            from: sender.as_ref().to_string(),
            to: recipient.as_ref().to_string(),
            subject: subject.to_string(),
            html_body: html_content.to_string(),
            text_body: text_content.to_string(),
        }
    }
}

} // verus!
