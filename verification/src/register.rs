//! Registration of a user by name and password.

use vstd::prelude::*;
use crate::common::Query;
use crate::text::joined;

verus! {

/// A request to register a user.
#[derive(Debug)]
pub struct RegisterRequest {
    pub username: String,
    pub password: String,
}

/// The answer to a request to register a user.
#[derive(Debug)]
pub struct RegisterResponse {
    pub success: bool,
    pub message: String,
}

/// What is stored in place of a password.
pub open spec fn stored_password_text(password: Seq<char>) -> Seq<char> {
    "dummy-hash-"@ + password
}

/// What is stored in place of a password.
pub fn stored_password(password: &str) -> (stored: String)
    ensures
        stored@ == stored_password_text(password@),
{
    joined("dummy-hash-", password)
}

/// What the user is told once the database has been asked to store them.
pub open spec fn register_message(stored: Query<()>) -> Seq<char> {
    match stored {
        Query::Unavailable => "Database not available. Registration is disabled."@,
        Query::Failed(error) => "Registration failed: "@ + error@,
        Query::Answered(_) => "User registered successfully"@,
    }
}

/// Answers a registration, given how storing the user ended.
pub fn register(stored: &Query<()>) -> (response: RegisterResponse)
    ensures
        response.success == (*stored is Answered),
        response.message@ == register_message(*stored),
{
    match stored {
        Query::Unavailable => RegisterResponse {
            success: false,
            message: "Database not available. Registration is disabled.".to_owned(),
        },
        Query::Failed(error) => RegisterResponse {
            success: false,
            message: joined("Registration failed: ", error.as_str()),
        },
        Query::Answered(_) => RegisterResponse {
            success: true,
            message: "User registered successfully".to_owned(),
        },
    }
}

} // verus!
