use crate::subscriptions::SubscriptionStatus;
use vstd::prelude::*;

verus! {

/// The query of a confirmation request.
pub struct Parameters {
    pub sub_token: String,
}

/// Why a confirmation failed.
pub enum ConfirmError {
    /// The request carried no token.
    MissingToken,
    /// No subscriber holds the token presented.
    TokenNotFound,
    /// The token could not be looked up; carries the cause.
    LookupError(String),
    /// The status could not be updated; carries the cause.
    UpdateError(String),
}

impl ConfirmError {
    /// A missing token is a bad request (400), an unknown one unauthorized
    /// (401); a storage failure is the server's (500).
    pub fn status_code(&self) -> (r: u16)
        ensures
            self is MissingToken ==> r == 400,
            self is TokenNotFound ==> r == 401,
            self is LookupError || self is UpdateError ==> r == 500,
    {
        match self {
            ConfirmError::MissingToken => 400,
            ConfirmError::TokenNotFound => 401,
            _ => 500,
        }
    }
}

/// What the caller must do next to confirm a subscriber.
pub enum ConfirmAction {
    /// Find the subscriber that holds this token.
    LookupToken(String),
    /// Set this subscriber's status; the only action that changes a record.
    MarkConfirmed { sub_id: u128, status: SubscriptionStatus },
    Finish(Result<(), ConfirmError>),
}

/// Starts a confirmation: a request without a token is refused at once,
/// otherwise the token is looked up as given.
pub fn confirm(params: Option<Parameters>) -> (a: ConfirmAction)
    ensures
        params is None ==> a matches ConfirmAction::Finish(Err(ConfirmError::MissingToken)),
        params matches Some(p) ==> (a matches ConfirmAction::LookupToken(t) && t@
            == p.sub_token@),
{
    match params {
        None => ConfirmAction::Finish(Err(ConfirmError::MissingToken)),
        Some(p) => ConfirmAction::LookupToken(p.sub_token),
    }
}

/// Takes the result of the token lookup: the subscriber found is marked
/// confirmed; an unknown token is refused and changes nothing.
pub fn on_token_lookup(found: Result<Option<u128>, String>) -> (a: ConfirmAction)
    ensures
        found matches Ok(Some(id)) ==> a == (ConfirmAction::MarkConfirmed {
            sub_id: id,
            status: SubscriptionStatus::Confirmed,
        }),
        found matches Ok(None) ==> a matches ConfirmAction::Finish(
            Err(ConfirmError::TokenNotFound),
        ),
        found matches Err(c) ==> (a matches ConfirmAction::Finish(Err(ConfirmError::LookupError(m)))
            && m@ == c@),
{
    match found {
        Ok(Some(id)) => ConfirmAction::MarkConfirmed {
            sub_id: id,
            status: SubscriptionStatus::Confirmed,
        },
        Ok(None) => ConfirmAction::Finish(Err(ConfirmError::TokenNotFound)),
        Err(c) => ConfirmAction::Finish(Err(ConfirmError::LookupError(c))),
    }
}

/// Takes the result of the status update and ends the confirmation.
pub fn on_status_update(updated: Result<(), String>) -> (a: ConfirmAction)
    ensures
        updated is Ok ==> a matches ConfirmAction::Finish(Ok(())),
        updated matches Err(c) ==> (a matches ConfirmAction::Finish(Err(ConfirmError::UpdateError(m)))
            && m@ == c@),
{
    match updated {
        Ok(()) => ConfirmAction::Finish(Ok(())),
        Err(c) => ConfirmAction::Finish(Err(ConfirmError::UpdateError(c))),
    }
}

} // verus!
