use crate::sub_email::{email_valid, invalid_email_message, SubscriberEmail};
use crate::sub_name::{is_valid_name_spec, SubscriberName};
use vstd::prelude::*;

verus! {

/// The raw fields of a subscription request.
pub struct FormData {
    pub email: String,
    pub name: String,
}

/// A validated name and address, ready to be stored.
pub struct NewSubscriber {
    pub email: SubscriberEmail,
    pub name: SubscriberName,
}

impl FormData {
    /// Validates the name, then the address, and stops at the first failure.
    pub fn try_into(self) -> (r: Result<NewSubscriber, String>)
        ensures
            r is Ok <==> is_valid_name_spec(self.name@) && email_valid(self.email@),
            r matches Ok(s) ==> s.name@ == self.name@ && s.email@ == self.email@,
            !is_valid_name_spec(self.name@) ==> (r matches Err(m) && m@ == "bad name"@),
            is_valid_name_spec(self.name@) && !email_valid(self.email@) ==> (r matches Err(m)
                && m@ == invalid_email_message(self.email@)),
    {
        let name = SubscriberName::parse(self.name)?;
        let email = SubscriberEmail::parse(self.email)?;
        Ok(NewSubscriber { email, name })
    }
}

} // verus!
