use vstd::prelude::*;

verus! {

/// Whether the email validator accepts a string as an address.
pub uninterp spec fn email_valid(s: Seq<char>) -> bool;

/// The message that rejects `email`.
pub open spec fn invalid_email_message(email: Seq<char>) -> Seq<char> {
    email + " is not a valid email address"@
}

/// Relies on `validator::validate_email` (HTML5 address form). Its source
/// rejects the empty string, a string without `@`, and a string whose part
/// before the last `@` is empty or holds an `@`, so one that starts with `@`.
#[verifier::external_body]
fn validate_email(s: &str) -> (r: bool)
    ensures
        r == email_valid(s@),
        s@.len() == 0 ==> !r,
        !s@.contains('@') ==> !r,
        s@.len() > 0 && s@[0] == '@' ==> !r,
{
    validator::validate_email(s)
}

/// A subscriber's email address; holding one means it passed validation.
pub struct SubscriberEmail {
    email: String,
}

impl View for SubscriberEmail {
    type V = Seq<char>;

    closed spec fn view(&self) -> Seq<char> {
        self.email@
    }
}

impl SubscriberEmail {
    #[verifier::type_invariant]
    spec fn inv(&self) -> bool {
        email_valid(self.email@)
    }

    /// Accepts `email` exactly when the validator does, keeping it unchanged.
    /// The empty string, a string without `@` and one with an empty local
    /// part are always rejected.
    pub fn parse(email: String) -> (r: Result<SubscriberEmail, String>)
        ensures
            r is Ok <==> email_valid(email@),
            r matches Ok(e) ==> e@ == email@,
            r matches Err(m) ==> m@ == invalid_email_message(email@),
            email@.len() == 0 || !email@.contains('@') || email@[0] == '@' ==> r is Err,
    {
        if validate_email(email.as_str()) {
            Ok(SubscriberEmail { email })
        } else {
            Err(email.concat(" is not a valid email address"))
        }
    }

    /// The address as text; every held address is valid.
    pub fn as_ref(&self) -> (r: &str)
        ensures
            r@ == self@,
            email_valid(self@),
    {
        proof {
            use_type_invariant(self);
        }
        self.email.as_str()
    }
}

} // verus!
