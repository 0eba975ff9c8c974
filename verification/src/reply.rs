//! The answers a registration can end with, and the failures that end it
//! without one.

use vstd::prelude::*;

verus! {

/// The content type of every answer.
pub fn content_type() -> (out: &'static str)
    ensures
        out@ == "application/json"@,
{
    "application/json"
}

/// How a registration answers its client.
#[derive(Clone, Copy, Debug, PartialEq, Eq, Structural)]
pub enum Reply {
    /// The username holds a space or an `@`.
    InvalidUsername,
    /// A user with this username is already stored.
    UsernameTaken,
    /// The process has no key for the identity provider.
    MissingIdentityKey,
    /// The identity provider refused to create the identity.
    IdentityRejected,
    /// The user is registered.
    Registered,
}

impl Reply {
    /// The status of each answer: 400 for a bad username, 409 for a taken one,
    /// 500 where the server or the identity provider is at fault, 200 on
    /// success.
    pub open spec fn status_code(self) -> u16 {
        match self {
            Reply::InvalidUsername => 400,
            Reply::UsernameTaken => 409,
            Reply::MissingIdentityKey => 500,
            Reply::IdentityRejected => 500,
            Reply::Registered => 200,
        }
    }

    /// The JSON body of each answer.
    pub open spec fn body_text(self) -> Seq<char> {
        match self {
            Reply::InvalidUsername =>
                "{\"failed\":true,\"message\":\"invalid characters in username\"}"@,
            Reply::UsernameTaken => "{\"failed\":true,\"message\":\"username already exists\"}"@,
            Reply::MissingIdentityKey =>
                "{\"failed\":true,\"message\":\"FIREBASE_WEB_API_KEY is not set\"}"@,
            Reply::IdentityRejected => "{\"failed\":true}"@,
            Reply::Registered => "{}"@,
        }
    }

    /// Every answer but `Registered` reports a failure.
    pub open spec fn is_failure(self) -> bool {
        self != Reply::Registered
    }

    /// The status to answer with.
    pub fn status(self) -> (code: u16)
        ensures
            code == self.status_code(),
    {
        match self {
            Reply::InvalidUsername => 400,
            Reply::UsernameTaken => 409,
            Reply::MissingIdentityKey => 500,
            Reply::IdentityRejected => 500,
            Reply::Registered => 200,
        }
    }

    /// The body to answer with.
    pub fn body(self) -> (text: String)
        ensures
            text@ == self.body_text(),
    {
        match self {
            Reply::InvalidUsername => String::from_str(
                "{\"failed\":true,\"message\":\"invalid characters in username\"}",
            ),
            Reply::UsernameTaken => String::from_str(
                "{\"failed\":true,\"message\":\"username already exists\"}",
            ),
            Reply::MissingIdentityKey => String::from_str(
                "{\"failed\":true,\"message\":\"FIREBASE_WEB_API_KEY is not set\"}",
            ),
            Reply::IdentityRejected => String::from_str("{\"failed\":true}"),
            Reply::Registered => String::from_str("{}"),
        }
    }

    /// Whether the answer reports a failure.
    pub fn failed(self) -> (yes: bool)
        ensures
            yes == self.is_failure(),
    {
        match self {
            Reply::Registered => false,
            _ => true,
        }
    }
}

/// Why a registration stopped without an answer of its own. The caller
/// reports each as a server error; none carries text from a collaborator.
#[derive(Clone, Copy, Debug, PartialEq, Eq, Structural)]
pub enum Failure {
    /// The query for users with the submitted username failed.
    UsernameQuery,
    /// The user record could not be stored.
    UserInsert,
    /// The lookup of the default merchant failed.
    MerchantLookup,
    /// The default merchant does not exist.
    MerchantMissing,
    /// The allowance record could not be stored.
    AllowanceInsert,
    /// An event arrived that the registration was not waiting for.
    OutOfTurn,
}

impl Failure {
    /// Every failure is reported with status 500.
    pub fn status(self) -> (code: u16)
        ensures
            code == 500,
    {
        500
    }

    /// Every failure is reported with the bare failure flag.
    pub fn body(self) -> (text: String)
        ensures
            text@ == "{\"failed\":true}"@,
    {
        String::from_str("{\"failed\":true}")
    }
}

} // verus!
