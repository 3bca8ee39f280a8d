use vstd::prelude::*;
use crate::json::{json_text_parses, json_value_of, parse_json};
use crate::types::{message::Message, user::User};

verus! {

/// Incoming callback query from a callback button in an inline keyboard
///
/// If the button that originated the query was attached to a message sent by the bot,
/// the field message will be present
/// If the button was attached to a message sent via the bot (in inline mode),
/// the field inline_message_id will be present
/// Exactly one of the fields data or game_short_name will be present
#[derive(Debug)]
pub struct CallbackQuery {
    /// Unique identifier for this query
    pub id: String,
    /// Sender
    pub from: User,
    /// Message with the callback button that originated the query
    /// Note that message content and message date
    /// will not be available if the message is too old
    pub message: Option<Message>,
    /// Identifier of the message sent via the bot
    /// in inline mode, that originated the query
    pub inline_message_id: Option<String>,
    /// Global identifier, uniquely corresponding
    /// to the chat to which the message with the
    /// callback button was sent
    /// Useful for high scores in games
    pub chat_instance: Option<String>,
    /// Data associated with the callback button.
    /// Be aware that a bad client can send arbitrary data in this field
    pub data: Option<String>,
    /// Short name of a Game to be returned,
    /// serves as the unique identifier for the game
    pub game_short_name: Option<String>,
}

impl CallbackQuery {
    /// Parses callback data as JSON using serde_json, giving the value serde_json reads
    ///
    /// No data gives `Ok(None)`; data that is not a JSON text gives an error
    pub fn parse_data(&self) -> (r: Result<Option<serde_json::Value>, CallbackQueryError>)
        ensures
            match self.data {
                None => r matches Ok(None),
                Some(data) => (r is Ok <==> json_text_parses(data@)) && (r matches Ok(v) ==> v == Some(
                    json_value_of(data@),
                )),
            },
    {
        if let Some(data) = &self.data {
            match parse_json(data.as_str()) {
                Ok(value) => Ok(Some(value)),
                Err(err) => Err(CallbackQueryError::ParseJsonData(err)),
            }
        } else {
            Ok(None)
        }
    }
}

/// An error occurred in callback query
#[derive(Debug)]
pub enum CallbackQueryError {
    /// Failed to parse JSON data
    ParseJsonData(serde_json::Error),
}

} // verus!
