//! Newsletter subscriptions: validated subscriber identity, confirmation
//! tokens, and the decision logic of the subscribe and confirm operations.
//!
//! The storage, the email transport and the HTTP surface stay outside this
//! crate; the operations here say which step to perform next and which
//! outcome to report, and are verified for every result those steps report.

pub mod sub_name;
pub mod sub_email;
pub mod new_subscriber;
pub mod token;
pub mod error_chain;
pub mod subscriptions;
pub mod sub_confirm;
pub mod config;
