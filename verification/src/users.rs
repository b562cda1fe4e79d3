//! Whether a phone number is registered, and the keys of a user.

use vstd::prelude::*;
use crate::common::failure;
use crate::common::status_of;
use crate::common::Query;
use crate::common::StatusCode;

verus! {

/// A request to check whether a phone number is registered.
#[derive(Debug)]
pub struct CheckUserRequest {
    pub phone: String,
}

/// The answer to a check of a phone number.
#[derive(Debug)]
pub struct CheckUserResponse {
    pub success: bool,
    pub registered: bool,
    pub message: String,
}

/// A request for a user's identity key.
#[derive(Debug)]
pub struct GetIdentityKeyRequest {
    pub phone: String,
}

/// The answer to a request for an identity key.
#[allow(non_snake_case)]
#[derive(Debug)]
pub struct GetIdentityKeyResponse {
    pub success: bool,
    pub publicKey: Option<Vec<u8>>,
    pub message: String,
}

/// A request for a user's messaging key.
#[derive(Debug)]
pub struct GetMessagingKeyRequest {
    pub phone: String,
}

/// The answer to a request for a messaging key.
#[allow(non_snake_case)]
#[derive(Debug)]
pub struct GetMessagingKeyResponse {
    pub success: bool,
    pub publicKey: Option<Vec<u8>>,
    pub message: String,
}

/// Answers a check of a phone number, given whether the database holds a
/// user with it.
pub fn check_user(found: &Query<bool>) -> (answer: Result<CheckUserResponse, StatusCode>)
    ensures
        match *found {
            Query::Answered(registered) => answer is Ok && {
                let response = answer->Ok_0;
                &&& response.success
                &&& response.registered == registered
                &&& response.message@ == if registered {
                    "User is registered"@
                } else {
                    "User is not registered"@
                }
            },
            _ => answer == Err::<CheckUserResponse, StatusCode>(status_of(*found)),
        },
{
    match found {
        Query::Answered(true) => Ok(
            CheckUserResponse {
                success: true,
                registered: true,
                message: "User is registered".to_owned(),
            },
        ),
        Query::Answered(false) => Ok(
            CheckUserResponse {
                success: true,
                registered: false,
                message: "User is not registered".to_owned(),
            },
        ),
        _ => Err(failure(found)),
    }
}

/// Answers a request for an identity key, given the key's record: `None`
/// where the user has none, and inside a record the key where it could be
/// read.
pub fn get_identity_key(record: Query<Option<Option<Vec<u8>>>>) -> (answer: Result<
    GetIdentityKeyResponse,
    StatusCode,
>)
    ensures
        match record {
            Query::Answered(found) => answer is Ok && {
                let response = answer->Ok_0;
                &&& response.success
                &&& match found {
                    Some(key) => response.publicKey == key && response.message@
                        == "Identity key retrieved"@,
                    None => response.publicKey.is_none() && response.message@
                        == "User not found or no identity key"@,
                }
            },
            _ => answer == Err::<GetIdentityKeyResponse, StatusCode>(status_of(record)),
        },
{
    match record {
        Query::Answered(Some(key)) => Ok(
            GetIdentityKeyResponse {
                success: true,
                publicKey: key,
                message: "Identity key retrieved".to_owned(),
            },
        ),
        Query::Answered(None) => Ok(
            GetIdentityKeyResponse {
                success: true,
                publicKey: None,
                message: "User not found or no identity key".to_owned(),
            },
        ),
        other => Err(failure(&other)),
    }
}

} // verus!
