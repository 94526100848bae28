use vstd::prelude::*;

use crate::subscriber_email::{is_valid_email, SubscriberEmail};
use crate::subscriber_name::{is_valid_name, SubscriberName};

verus! {

/// A name and an address that have both passed validation.
#[derive(Debug)]
pub struct NewSubscriber {
    pub email: SubscriberEmail,
    pub name: SubscriberName,
}

impl NewSubscriber {
    /// Validates the submitted name, then the submitted address; the first
    /// rejection is reported.
    pub fn parse(name: String, email: String) -> (r: Result<Self, String>)
        ensures
            r is Ok <==> is_valid_name(name@) && is_valid_email(email@),
            r matches Ok(s) ==> s.name@ == name@ && s.email@ == email@,
            r matches Err(e) ==> e@ == if !is_valid_name(name@) {
                "invalid subscriber name"@
            } else {
                "invalid subscriber email"@
            },
    {
        let name = SubscriberName::parse(name)?;
        let email = SubscriberEmail::parse(email)?;
        Ok(NewSubscriber { email, name })
    }
}

} // verus!
