//! Encrypted messages: storing one for its destination and listing those
//! that wait for a phone number.

use vstd::prelude::*;
use crate::common::failure;
use crate::common::status_of;
use crate::common::Query;
use crate::common::StatusCode;
use crate::random::fresh_uuid;
use crate::random::is_hyphenated_id;
use crate::text::text_of;
use crate::text::decimal;
use crate::text::decimal_text;
use crate::text::joined;

verus! {

/// A request to send a message.
#[derive(Debug)]
pub struct SendMessageRequest {
    pub destination_phone: String,
    pub encrypted_content: Vec<u8>,
    pub message_id: String,
    pub message_type: Option<String>,
}

/// The answer to a request to send a message.
#[derive(Debug)]
pub struct SendMessageResponse {
    pub success: bool,
    pub message_id: String,
    pub message: String,
}

/// One message as it is handed to its destination.
#[derive(Debug)]
pub struct MessageData {
    pub id: i64,
    pub encrypted_content: Vec<u8>,
    pub message_id: String,
    pub timestamp: String,
    pub message_type: Option<String>,
}

/// The answer to a request for messages.
#[derive(Debug)]
pub struct GetMessagesResponse {
    pub success: bool,
    pub messages: Vec<MessageData>,
    pub message: String,
}

/// A moment in time: the seconds since the epoch, and the nanoseconds of the
/// running second.
#[derive(Debug, Clone, Copy, PartialEq, Eq, Structural)]
pub struct Moment {
    pub seconds: i64,
    pub nanoseconds: u32,
}

/// A request for the messages that wait for a phone number, all of them or
/// those after a moment.
#[derive(Debug)]
pub struct GetMessagesRequest {
    pub phone: String,
    pub since: Option<Moment>,
}

/// Which of the waiting messages are asked of the database.
#[derive(Debug, Clone, Copy, PartialEq, Eq, Structural)]
pub enum MessageWindow {
    /// Every message after the moment.
    After(Moment),
    /// The oldest messages, up to the number given.
    First(u32),
}

/// How many messages are handed out at most where no moment is given.
pub const MESSAGE_LIMIT: u32 = 100;

/// One message as the database holds it.
#[derive(Debug)]
pub struct MessageRow {
    pub id: i64,
    pub encrypted_content: Vec<u8>,
    pub message_id: String,
    pub timestamp: Moment,
    pub message_type: Option<String>,
}

/// A message as it goes into the database.
#[derive(Debug)]
pub struct OutgoingMessage {
    pub destination_phone: String,
    pub encrypted_content: Vec<u8>,
    pub message_id: String,
    pub message_type: String,
}

/// The moment `seconds` and `nanoseconds` after the epoch, written as RFC 3339
/// in UTC; `None` where chrono cannot represent the moment.
pub uninterp spec fn rfc3339_text(seconds: i64, nanoseconds: u32) -> Option<Seq<char>>;

/// Makes the moment with `chrono::DateTime::from_timestamp` and writes it out
/// with `DateTime::to_rfc3339`. The moment is in UTC, so the text depends on
/// the two numbers alone; the contract names it.
#[verifier::external_body]
fn rfc3339(seconds: i64, nanoseconds: u32) -> (text: Option<String>)
    ensures
        text_of(text) == rfc3339_text(seconds, nanoseconds),
{
    match chrono::DateTime::from_timestamp(seconds, nanoseconds) {
        Some(moment) => Some(moment.to_rfc3339()),
        None => None,
    }
}

/// The type of a message for which none was given.
pub open spec fn default_message_type() -> Seq<char> {
    "text"@
}

/// The identifier under which a message is stored: the one given, or where
/// that is empty the fresh one.
pub open spec fn message_id_text(given: Seq<char>, fresh: Seq<char>) -> Seq<char> {
    if given.len() == 0 {
        fresh
    } else {
        given
    }
}

/// Makes of a request what goes into the database, with `fresh` as the
/// identifier where the request brings none.
pub fn outgoing_message(body: SendMessageRequest, fresh: String) -> (outgoing: OutgoingMessage)
    ensures
        outgoing.destination_phone@ == body.destination_phone@,
        outgoing.encrypted_content@ == body.encrypted_content@,
        outgoing.message_id@ == message_id_text(body.message_id@, fresh@),
        outgoing.message_type@ == match body.message_type {
            Some(given) => given@,
            None => default_message_type(),
        },
{
    let message_id = if body.message_id.as_str().is_empty() {
        fresh
    } else {
        body.message_id
    };
    let message_type = match body.message_type {
        Some(given) => given,
        None => "text".to_owned(),
    };
    OutgoingMessage {
        destination_phone: body.destination_phone,
        encrypted_content: body.encrypted_content,
        message_id,
        message_type,
    }
}

/// Makes of a request what goes into the database. A request without an
/// identifier gets a fresh random one.
pub fn prepare_message(body: SendMessageRequest) -> (outgoing: OutgoingMessage)
    ensures
        outgoing.destination_phone@ == body.destination_phone@,
        outgoing.encrypted_content@ == body.encrypted_content@,
        body.message_id@.len() > 0 ==> outgoing.message_id@ == body.message_id@,
        body.message_id@.len() == 0 ==> is_hyphenated_id(outgoing.message_id@),
        outgoing.message_type@ == match body.message_type {
            Some(given) => given@,
            None => default_message_type(),
        },
{
    let fresh = if body.message_id.as_str().is_empty() {
        fresh_uuid()
    } else {
        String::new()
    };
    outgoing_message(body, fresh)
}

/// Answers a request to send a message, given the identifier under which it
/// was stored and how storing it ended.
pub fn send_message(message_id: String, stored: &Query<()>) -> (answer: Result<
    SendMessageResponse,
    StatusCode,
>)
    ensures
        match *stored {
            Query::Answered(_) => answer matches Ok(response) && {
                &&& response.success
                &&& response.message_id@ == message_id@
                &&& response.message@ == "Message sent successfully"@
            },
            _ => answer == Err::<SendMessageResponse, StatusCode>(status_of(*stored)),
        },
{
    match stored {
        Query::Answered(_) => Ok(
            SendMessageResponse {
                success: true,
                message_id,
                message: "Message sent successfully".to_owned(),
            },
        ),
        _ => Err(failure(stored)),
    }
}

/// The messages that a request asks for: those after its moment where it
/// gives one, and the oldest up to the limit otherwise.
pub fn message_window(body: &GetMessagesRequest) -> (window: MessageWindow)
    ensures
        window == match body.since {
            Some(moment) => MessageWindow::After(moment),
            None => MessageWindow::First(MESSAGE_LIMIT),
        },
{
    match body.since {
        Some(moment) => MessageWindow::After(moment),
        None => MessageWindow::First(MESSAGE_LIMIT),
    }
}

/// The time of a row as text: RFC 3339 where the moment can be represented,
/// and empty otherwise.
pub open spec fn timestamp_text(seconds: i64, nanoseconds: u32) -> Seq<char> {
    match rfc3339_text(seconds, nanoseconds) {
        Some(text) => text,
        None => Seq::empty(),
    }
}

/// Whether `data` is the message that `row` holds, with its time as text.
pub open spec fn is_message_of(data: MessageData, row: MessageRow) -> bool {
    &&& data.id == row.id
    &&& data.encrypted_content@ == row.encrypted_content@
    &&& data.message_id@ == row.message_id@
    &&& data.timestamp@ == timestamp_text(row.timestamp.seconds, row.timestamp.nanoseconds)
    &&& text_of(data.message_type) == text_of(row.message_type)
}

/// What a user is told who asked for messages.
pub open spec fn messages_message(count: nat) -> Seq<char> {
    "Retrieved "@ + decimal_text(count) + " messages"@
}

/// The message that `row` holds, with its time as text.
pub fn message_data(row: &MessageRow) -> (data: MessageData)
    ensures
        is_message_of(data, *row),
{
    let timestamp = match rfc3339(row.timestamp.seconds, row.timestamp.nanoseconds) {
        Some(text) => text,
        None => String::new(),
    };
    let encrypted_content = row.encrypted_content.clone();
    assert(encrypted_content@ =~= row.encrypted_content@);
    let message_type = match &row.message_type {
        Some(given) => Some(given.clone()),
        None => None,
    };
    MessageData {
        id: row.id,
        encrypted_content,
        message_id: row.message_id.clone(),
        timestamp,
        message_type,
    }
}

/// Answers a request for messages, given the rows that the database holds
/// for the phone number: one message for each, in the same order.
pub fn get_messages(rows: &Query<Vec<MessageRow>>) -> (answer: Result<GetMessagesResponse, StatusCode>)
    ensures
        match *rows {
            Query::Answered(found) => answer matches Ok(response) && {
                &&& response.success
                &&& response.messages@.len() == found@.len()
                &&& forall|i: int|
                    0 <= i < found@.len() ==> is_message_of(
                        #[trigger] response.messages@[i],
                        found@[i],
                    )
                &&& response.message@ == messages_message(found@.len())
            },
            _ => answer == Err::<GetMessagesResponse, StatusCode>(status_of(*rows)),
        },
{
    match rows {
        Query::Answered(found) => {
            let mut messages: Vec<MessageData> = Vec::new();
            let mut i: usize = 0;
            while i < found.len()
                invariant
                    i <= found@.len(),
                    messages@.len() == i,
                    forall|j: int| 0 <= j < i ==> is_message_of(#[trigger] messages@[j], found@[j]),
                decreases found@.len() - i,
            {
                messages.push(message_data(&found[i]));
                i = i + 1;
            }
            let count = decimal(messages.len() as u64);
            let head = joined("Retrieved ", count.as_str());
            Ok(
                GetMessagesResponse {
                    success: true,
                    messages,
                    message: joined(head.as_str(), " messages"),
                },
            )
        },
        _ => Err(failure(rows)),
    }
}

} // verus!
