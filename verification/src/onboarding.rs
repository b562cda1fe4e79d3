//! One-time passcodes: issuing one for a phone number and verifying it.

use vstd::prelude::*;
use crate::common::OtpEntry;
use crate::common::OtpStore;
use crate::random::random_in;
use crate::text::decimal;
use crate::text::decimal_text;
use crate::text::six_digits;

verus! {

/// A request to send a passcode.
#[derive(Debug)]
pub struct SendOtpRequest {
    pub phone: String,
}

/// The answer to a request to send a passcode.
#[derive(Debug)]
pub struct SendOtpResponse {
    pub success: bool,
    pub message: String,
}

/// A request to verify a passcode.
#[derive(Debug)]
pub struct VerifyOtpRequest {
    pub phone: String,
    pub code: String,
}

/// The answer to a request to verify a passcode.
#[derive(Debug)]
pub struct VerifyOtpResponse {
    pub success: bool,
    pub message: String,
}

/// For how many seconds after its issue a passcode is honoured.
pub const OTP_LIFETIME_SECS: u64 = 600;

/// The smallest number that a passcode is drawn from.
pub const OTP_LOW: u32 = 100000;

/// The bound below which a passcode is drawn.
pub const OTP_HIGH: u32 = 1000000;

/// Whether `code` is a passcode: a number from `OTP_LOW` up to but not
/// including `OTP_HIGH`, in decimal, which makes six digits.
pub open spec fn is_otp(code: Seq<char>) -> bool {
    exists|n: nat| OTP_LOW <= n < OTP_HIGH && code == #[trigger] decimal_text(n)
}

/// The passcode for the number drawn.
pub fn otp_text(drawn: u32) -> (code: String)
    requires
        OTP_LOW <= drawn < OTP_HIGH,
    ensures
        code@ == decimal_text(drawn as nat),
        code@.len() == 6,
        is_otp(code@),
{
    proof {
        six_digits(drawn as nat);
    }
    decimal(drawn as u64)
}

/// A random passcode of six digits.
pub fn generate_otp() -> (code: String)
    ensures
        is_otp(code@),
        code@.len() == 6,
{
    otp_text(random_in(OTP_LOW, OTP_HIGH))
}

/// Issues a passcode for the phone number in `body` at the time `timestamp`,
/// in seconds since the epoch. The passcode replaces one that was waiting
/// for the same number. It is handed back for the message to the user.
pub fn send_otp(store: &mut OtpStore, body: &SendOtpRequest, timestamp: u64) -> (outcome: (
    SendOtpResponse,
    String,
))
    ensures
        outcome.0.success,
        outcome.0.message@ == "OTP sent successfully"@,
        is_otp(outcome.1@),
        final(store)@ == old(store)@.insert(
            body.phone@,
            (OtpEntry { code: outcome.1, issued_at: timestamp }),
        ),
{
    let code = generate_otp();
    let _ = store.insert(body.phone.clone(), OtpEntry { code: code.clone(), issued_at: timestamp });
    let response = SendOtpResponse { success: true, message: "OTP sent successfully".to_owned() };
    (response, code)
}

/// How a passcode fares against what is waiting for its phone number.
pub enum OtpVerdict {
    /// No passcode is waiting for the number.
    Missing,
    /// The passcode that is waiting is older than its lifetime.
    Expired,
    /// The passcode is the one that is waiting.
    Verified,
    /// The passcode differs from the one that is waiting.
    Mismatch,
}

/// Whether a passcode issued at `issued_at` is too old at `now`.
pub open spec fn otp_expired(issued_at: u64, now: u64) -> bool {
    now - issued_at > OTP_LIFETIME_SECS
}

/// The verdict on `code` for `phone` at the time `now`.
pub open spec fn otp_verdict(
    store: Map<Seq<char>, OtpEntry>,
    phone: Seq<char>,
    code: Seq<char>,
    now: u64,
) -> OtpVerdict {
    if !store.contains_key(phone) {
        OtpVerdict::Missing
    } else if otp_expired(store[phone].issued_at, now) {
        OtpVerdict::Expired
    } else if store[phone].code@ == code {
        OtpVerdict::Verified
    } else {
        OtpVerdict::Mismatch
    }
}

/// What the user is told for a verdict.
pub open spec fn verdict_message(verdict: OtpVerdict) -> Seq<char> {
    match verdict {
        OtpVerdict::Missing => "No OTP found for this phone number"@,
        OtpVerdict::Expired => "OTP expired"@,
        OtpVerdict::Verified => "OTP verified successfully"@,
        OtpVerdict::Mismatch => "Invalid OTP code"@,
    }
}

/// Verifies the passcode in `body` at the time `current_time`, in seconds
/// since the epoch. A passcode is used up when it is verified and thrown away
/// when it has expired; a wrong one leaves the waiting passcode in place.
pub fn verify_otp(store: &mut OtpStore, body: &VerifyOtpRequest, current_time: u64) -> (response:
    VerifyOtpResponse)
    ensures
        ({
            let verdict = otp_verdict(old(store)@, body.phone@, body.code@, current_time);
            &&& response.success == (verdict is Verified)
            &&& response.message@ == verdict_message(verdict)
            &&& final(store)@ == if verdict is Expired || verdict is Verified {
                old(store)@.remove(body.phone@)
            } else {
                old(store)@
            }
        }),
{
    let (expired, matches) = match store.get(&body.phone) {
        Some(entry) => (
            current_time > entry.issued_at && current_time - entry.issued_at > OTP_LIFETIME_SECS,
            entry.code == body.code,
        ),
        None => {
            return VerifyOtpResponse {
                success: false,
                message: "No OTP found for this phone number".to_owned(),
            };
        },
    };
    if expired {
        let _ = store.remove(&body.phone);
        VerifyOtpResponse { success: false, message: "OTP expired".to_owned() }
    } else if matches {
        let _ = store.remove(&body.phone);
        VerifyOtpResponse { success: true, message: "OTP verified successfully".to_owned() }
    } else {
        VerifyOtpResponse { success: false, message: "Invalid OTP code".to_owned() }
    }
}

} // verus!
