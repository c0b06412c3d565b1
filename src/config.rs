use crate::sub_email::{email_valid, invalid_email_message, SubscriberEmail};
use vstd::prelude::*;

verus! {

/// All settings of the application.
pub struct Settings {
    pub database: DatabaseSettings,
    pub app: AppSettings,
    pub email_client: EmailClientSettings,
}

/// Where the application listens, and the base of the links it sends.
pub struct AppSettings {
    pub host: String,
    pub port: u16,
    pub base_url: String,
}

/// How to reach the database.
pub struct DatabaseSettings {
    pub username: String,
    pub password: String,
    pub port: u16,
    pub host: String,
    pub database_name: String,
    pub require_ssl: bool,
}

/// How to reach the email service.
pub struct EmailClientSettings {
    pub base_url: String,
    pub sender_email: String,
    pub auth_token: String,
}

/// Whether the connection to the database must be encrypted.
#[derive(Clone, Copy, PartialEq, Eq, Structural, Debug)]
pub enum SslMode {
    Require,
    Prefer,
}

impl DatabaseSettings {
    /// Encryption is required when the settings ask for it, else only preferred.
    pub fn ssl_mode(&self) -> (r: SslMode)
        ensures
            r == (if self.require_ssl {
                SslMode::Require
            } else {
                SslMode::Prefer
            }),
    {
        if self.require_ssl {
            SslMode::Require
        } else {
            SslMode::Prefer
        }
    }
}

impl EmailClientSettings {
    /// The sender's address, validated as a subscriber's would be.
    pub fn sender(&self) -> (r: Result<SubscriberEmail, String>)
        ensures
            r is Ok <==> email_valid(self.sender_email@),
            r matches Ok(e) ==> e@ == self.sender_email@,
            r matches Err(m) ==> m@ == invalid_email_message(self.sender_email@),
    {
        SubscriberEmail::parse(self.sender_email.clone())
    }
}

/// The environment the application runs in, which picks a settings file.
#[derive(Clone, Copy, PartialEq, Eq, Structural, Debug)]
pub enum Environment {
    Local,
    Prod,
}

/// The lower-case form of a string.
pub uninterp spec fn lower_of(s: Seq<char>) -> Seq<char>;

/// The environment that a lower-case name denotes, if any.
pub open spec fn environment_of(s: Seq<char>) -> Option<Environment> {
    if s == "local"@ {
        Some(Environment::Local)
    } else if s == "prod"@ {
        Some(Environment::Prod)
    } else {
        None
    }
}

/// Relies on `str::to_lowercase`: the result depends on the characters alone.
#[verifier::external_body]
fn to_lowercase(s: &str) -> (r: String)
    ensures
        r@ == lower_of(s@),
{
    s.to_lowercase()
}

impl Environment {
    pub fn as_str(&self) -> (r: &'static str)
        ensures
            *self is Local ==> r@ == "local"@,
            *self is Prod ==> r@ == "prod"@,
    {
        match self {
            Environment::Local => "local",
            Environment::Prod => "prod",
        }
    }

    /// Reads an environment from its name in lower case.
    pub fn from_lowercase(s: &str) -> (r: Result<Environment, String>)
        ensures
            environment_of(s@) matches Some(e) ==> r == Ok::<Environment, String>(e),
            environment_of(s@) is None ==> (r matches Err(m) && m@ == "oh no!"@),
    {
        let name = String::from_str(s);
        if name == String::from_str("local") {
            Ok(Environment::Local)
        } else if name == String::from_str("prod") {
            Ok(Environment::Prod)
        } else {
            Err(String::from_str("oh no!"))
        }
    }

    /// Reads an environment from its name, in any case.
    pub fn try_from(s: String) -> (r: Result<Environment, String>)
        ensures
            environment_of(lower_of(s@)) matches Some(e) ==> r == Ok::<Environment, String>(e),
            environment_of(lower_of(s@)) is None ==> (r matches Err(m) && m@ == "oh no!"@),
    {
        let lower = to_lowercase(s.as_str());
        Environment::from_lowercase(lower.as_str())
    }
}

} // verus!
