use crate::domain::subscriber_email::{email_error, valid_email, SubscriberEmail};
use crate::domain::subscriber_name::{name_error_from_string, valid_name, SubscriberName};
use crate::routes::FormData;
use vstd::prelude::*;

verus! {

/// A subscription request whose name and address have both been checked.
#[derive(Debug)]
pub struct NewSubscriber {
    pub email: SubscriberEmail,
    pub name: SubscriberName,
}

/// Whether a submitted form describes a valid subscriber.
pub open spec fn valid_form(name: Seq<char>, email: Seq<char>) -> bool {
    valid_name(name) && valid_email(email)
}

impl NewSubscriber {
    /// Checks the name, then the address, of a submitted form; the first
    /// that fails gives the error.
    pub fn try_from(value: FormData) -> (r: Result<NewSubscriber, String>)
        ensures
            r is Ok <==> valid_form(value.name@, value.email@),
            r matches Ok(s) ==> s.name@ == value.name@ && s.email@ == value.email@,
            r matches Err(e) ==> if !valid_name(value.name@) {
                e@ == name_error_from_string()
            } else {
                e@ == email_error()
            },
    {
        let name = SubscriberName::try_from(value.name)?;
        let email = SubscriberEmail::try_from(value.email)?;
        Ok(NewSubscriber { email, name })
    }
}

impl TryFrom<FormData> for NewSubscriber {
    type Error = String;

    fn try_from(value: FormData) -> (r: Result<NewSubscriber, String>)
        ensures
            r is Ok <==> valid_form(value.name@, value.email@),
            r matches Ok(s) ==> s.name@ == value.name@ && s.email@ == value.email@,
            r matches Err(e) ==> if !valid_name(value.name@) {
                e@ == name_error_from_string()
            } else {
                e@ == email_error()
            },
    {
        NewSubscriber::try_from(value)
    }
}

// The trait-level specification is left open (`obeys_try_from_spec` is false):
// the impl above states the contract of the conversion itself.
impl vstd::std_specs::convert::TryFromSpecImpl<FormData> for NewSubscriber {
    open spec fn obeys_try_from_spec() -> bool {
        false
    }

    open spec fn try_from_spec(v: FormData) -> Result<NewSubscriber, String> {
        arbitrary()
    }
}

} // verus!
