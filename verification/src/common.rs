//! Types that several handlers share.

use vstd::prelude::*;
use crate::store::KeyedStore;

verus! {

/// A passcode that was issued, and the time of issue in seconds since the epoch.
#[derive(Debug)]
pub struct OtpEntry {
    pub code: String,
    pub issued_at: u64,
}

/// The passcodes that are waiting to be verified, by phone number.
pub type OtpStore = KeyedStore<OtpEntry>;

/// Where a push notification for one device is sent.
#[derive(Debug, Clone)]
pub struct PushSubscription {
    pub endpoint: String,
    pub keys: PushKeys,
}

/// The keys of a push subscription.
#[derive(Debug, Clone)]
pub struct PushKeys {
    pub p256dh: String,
    pub auth: String,
}

/// The push subscriptions of each user's devices, by phone number.
pub type PushSubscriptionsStore = KeyedStore<Vec<PushSubscription>>;

/// Why a handler could not answer.
#[derive(Debug, Clone, Copy, PartialEq, Eq, Structural)]
pub enum StatusCode {
    /// The record asked for does not exist.
    NotFound,
    /// The database failed.
    InternalServerError,
    /// No database is configured.
    ServiceUnavailable,
}

/// How a question to the database ended.
#[derive(Debug)]
pub enum Query<T> {
    /// No database is configured.
    Unavailable,
    /// The database failed, with this message.
    Failed(String),
    /// The database answered.
    Answered(T),
}

/// What a handler does once it knows whether the user exists.
#[derive(Debug)]
pub enum Step<R> {
    /// Answer the request.
    Respond(Result<R, StatusCode>),
    /// Create the user first.
    CreateUser,
}

/// The status with which a handler fails when the database gave no answer.
pub open spec fn status_of<T>(query: Query<T>) -> StatusCode {
    match query {
        Query::Unavailable => StatusCode::ServiceUnavailable,
        _ => StatusCode::InternalServerError,
    }
}

/// The status with which a handler fails when the database gave no answer.
pub fn failure<T>(query: &Query<T>) -> (status: StatusCode)
    ensures
        status == status_of(*query),
{
    match query {
        Query::Unavailable => StatusCode::ServiceUnavailable,
        _ => StatusCode::InternalServerError,
    }
}

} // verus!
