//! The messenger's webhook payload, the outgoing message, and the service's
//! settings, as plain values.

use vstd::prelude::*;
use crate::text::{append_str, owned, push_signed_decimal, signed_decimal};

verus! {

/// An incoming webhook call.
#[derive(Debug, Clone)]
pub struct MaxWebhook {
    pub timestamp: u64,
    pub message: Message,
    pub user_locale: String,
    pub update_type: String,
}

/// The message a webhook call carries.
#[derive(Debug, Clone)]
pub struct Message {
    pub recipient: Recipient,
    pub timestamp: u64,
    pub body: MessageBody,
    pub sender: Sender,
}

/// The chat a message was sent to.
#[derive(Debug, Clone)]
pub struct Recipient {
    pub chat_id: i64,
    pub chat_type: String,
    pub user_id: i64,
}

/// A message's identifier, sequence number and text.
#[derive(Debug, Clone)]
pub struct MessageBody {
    pub mid: String,
    pub seq: u64,
    pub text: String,
}

/// The user who sent a message.
#[derive(Debug, Clone)]
pub struct Sender {
    pub user_id: i64,
    pub first_name: String,
    pub last_name: String,
    pub is_bot: bool,
    pub last_activity_time: u64,
    pub name: String,
}

/// The service's settings.
#[derive(Debug, Clone)]
pub struct Config {
    pub port: u16,
    pub database_url: String,
    pub max_bot_token: String,
    pub file_storage_path: String,
}

/// The body of an outgoing message.
#[derive(Debug, Clone)]
pub struct SendMessageRequest {
    pub format: String,
    pub text: String,
}

impl SendMessageRequest {
    /// A message whose text is written in the messenger's HTML markup.
    pub fn html(text: &str) -> (r: SendMessageRequest)
        ensures
            r.format@ == "html"@,
            r.text@ == text@,
    {
        SendMessageRequest { format: owned("html"), text: owned(text) }
    }
}

/// Where the messenger's API is served.
pub const MAX_API_BASE: &'static str = "https://platform-api.max.ru";

/// The address to which a message for `chat_id` and `user_id` is posted.
pub open spec fn message_url_text(base: Seq<char>, chat_id: int, user_id: int) -> Seq<char> {
    base + "/messages?chat_id="@ + signed_decimal(chat_id) + "&user_id="@ + signed_decimal(user_id)
}

/// The address to which a message for `chat_id` and `user_id` is posted; the
/// two identifiers travel as query parameters.
pub fn message_url(base: &str, chat_id: i64, user_id: i64) -> (r: String)
    ensures
        r@ == message_url_text(base@, chat_id as int, user_id as int),
{
    let mut r = owned(base);
    append_str(&mut r, "/messages?chat_id=");
    push_signed_decimal(&mut r, chat_id);
    append_str(&mut r, "&user_id=");
    push_signed_decimal(&mut r, user_id);
    assert(r@ =~= message_url_text(base@, chat_id as int, user_id as int));
    r
}

} // verus!
