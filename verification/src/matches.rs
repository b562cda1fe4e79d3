//! Matches: for now every user matches every other user. Only phone numbers
//! are kept; what else describes a user stays on the user's own devices.

use vstd::prelude::*;
use crate::common::failure;
use crate::common::status_of;
use crate::common::Query;
use crate::common::StatusCode;
use crate::common::Step;
use crate::text::decimal;
use crate::text::decimal_text;
use crate::text::joined;

verus! {

/// A request for matches.
#[derive(Debug)]
pub struct MatchRequest {
    pub phone: String,
    pub age: i32,
    pub gender: String,
    pub department: String,
    pub interests: Vec<String>,
}

/// One match.
#[derive(Debug)]
pub struct MatchData {
    pub phone: String,
    pub encrypted_age: String,
    pub encrypted_department: String,
    pub avatar_url: String,
    pub match_id: String,
}

/// The answer to a request for matches.
#[derive(Debug)]
pub struct MatchResponse {
    pub success: bool,
    pub matches: Vec<MatchData>,
    pub message: String,
}

/// Whether `data` is the match for the user with the given phone number: it
/// carries the number, an identifier made from it, and nothing else.
pub open spec fn is_match_for(data: MatchData, phone: Seq<char>) -> bool {
    &&& data.phone@ == phone
    &&& data.encrypted_age@ == Seq::<char>::empty()
    &&& data.encrypted_department@ == Seq::<char>::empty()
    &&& data.avatar_url@ == Seq::<char>::empty()
    &&& data.match_id@ == "match_"@ + phone
}

/// What a user is told who asked for matches.
pub open spec fn matches_message(count: nat) -> Seq<char> {
    "Found "@ + decimal_text(count) + " matches"@
}

/// The match for the user with the given phone number.
pub fn match_for(phone: &String) -> (data: MatchData)
    ensures
        is_match_for(data, phone@),
{
    MatchData {
        phone: phone.clone(),
        encrypted_age: String::new(),
        encrypted_department: String::new(),
        avatar_url: String::new(),
        match_id: joined("match_", phone.as_str()),
    }
}

/// Answers a request for matches, given the phone numbers of the other
/// users: one match for each, in the same order.
pub fn get_matches(others: &Query<Vec<String>>) -> (answer: Result<MatchResponse, StatusCode>)
    ensures
        match *others {
            Query::Answered(phones) => answer matches Ok(response) && {
                &&& response.success
                &&& response.matches@.len() == phones@.len()
                &&& forall|i: int|
                    0 <= i < phones@.len() ==> is_match_for(
                        #[trigger] response.matches@[i],
                        phones@[i]@,
                    )
                &&& response.message@ == matches_message(phones@.len())
            },
            _ => answer == Err::<MatchResponse, StatusCode>(status_of(*others)),
        },
{
    match others {
        Query::Answered(phones) => {
            let mut matches: Vec<MatchData> = Vec::new();
            let mut i: usize = 0;
            while i < phones.len()
                invariant
                    i <= phones@.len(),
                    matches@.len() == i,
                    forall|j: int| 0 <= j < i ==> is_match_for(#[trigger] matches@[j], phones@[j]@),
                decreases phones@.len() - i,
            {
                matches.push(match_for(&phones[i]));
                i = i + 1;
            }
            let count = decimal(matches.len() as u64);
            let head = joined("Found ", count.as_str());
            Ok(MatchResponse { success: true, matches, message: joined(head.as_str(), " matches") })
        },
        _ => Err(failure(others)),
    }
}

/// Whether `response` reports that a request to be matched is registered.
pub open spec fn match_registered(response: MatchResponse) -> bool {
    &&& response.success
    &&& response.matches@.len() == 0
    &&& response.message@ == "Match request registered"@
}

/// The answer that a request to be matched is registered.
fn match_registered_answer() -> (response: MatchResponse)
    ensures
        match_registered(response),
{
    MatchResponse {
        success: true,
        matches: Vec::new(),
        message: "Match request registered".to_owned(),
    }
}

/// Registers a user for matching, given whether the database holds the
/// user. A user that exists gets the answer at once; one that does not is to
/// be created first.
pub fn request_match(user: &Query<bool>) -> (step: Step<MatchResponse>)
    ensures
        match *user {
            Query::Answered(true) => step matches Step::Respond(Ok(response)) && match_registered(
                response,
            ),
            Query::Answered(false) => step is CreateUser,
            _ => step == Step::Respond(Err::<MatchResponse, StatusCode>(status_of(*user))),
        },
{
    match user {
        Query::Answered(true) => Step::Respond(Ok(match_registered_answer())),
        Query::Answered(false) => Step::CreateUser,
        _ => Step::Respond(Err(failure(user))),
    }
}

/// Finishes a request to be matched, given how creating the user ended.
pub fn request_match_created(created: &Query<()>) -> (answer: Result<MatchResponse, StatusCode>)
    ensures
        match *created {
            Query::Answered(_) => answer matches Ok(response) && match_registered(response),
            _ => answer == Err::<MatchResponse, StatusCode>(status_of(*created)),
        },
{
    match created {
        Query::Answered(_) => Ok(match_registered_answer()),
        _ => Err(failure(created)),
    }
}

} // verus!
