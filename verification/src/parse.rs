//! From the bytes of an inbound delivery to a typed [`Update`].
//!
//! Reading goes in two steps. The first takes out of the JSON document the
//! few members that the bot looks at, each as far as it is there. The
//! second, [`classify`], decides from those members alone which one shape
//! the update has.

use crate::json::{
    json_document, json_member, json_number, json_text, member, number, read_document, text,
};
use crate::messages::{
    CallbackData, CallbackMessage, CallbackMessageView, Chat, Command, CommandView, Contents,
    ContentsView, Message, MessageView, Update, UpdateView, User,
};
use crate::token::decode_token;
use vstd::prelude::*;

verus! {

/// Why an inbound delivery is no update.
#[derive(Debug, Clone, Copy, PartialEq, Eq)]
pub enum ParseError {
    /// The bytes are not a JSON document.
    InvalidJson,
    /// The sequence number, or a member that the carried message needs,
    /// is absent or of the wrong kind.
    MissingField,
    /// A button press is there, but its payload is no callback token.
    MalformedCallback,
}

/// What a message object holds of the members that a message needs.
#[derive(Debug, Clone, PartialEq, Eq)]
pub struct RawMessage {
    pub message_id: Option<u64>,
    pub text: Option<String>,
    pub sender_id: Option<u64>,
    pub chat_id: Option<u64>,
}

/// What a [`RawMessage`] is.
pub struct RawMessageView {
    pub message_id: Option<u64>,
    pub text: Option<Seq<char>>,
    pub sender_id: Option<u64>,
    pub chat_id: Option<u64>,
}

impl View for RawMessage {
    type V = RawMessageView;

    open spec fn view(&self) -> RawMessageView {
        RawMessageView {
            message_id: self.message_id,
            text: match self.text {
                Some(text) => Some(text@),
                None => None,
            },
            sender_id: self.sender_id,
            chat_id: self.chat_id,
        }
    }
}

/// What a button-press object holds of the members that a press needs.
#[derive(Debug, Clone, PartialEq, Eq)]
pub struct RawCallback {
    pub id: Option<String>,
    pub sender_id: Option<u64>,
    pub message: Option<RawMessage>,
    pub data: Option<String>,
}

/// What a [`RawCallback`] is.
pub struct RawCallbackView {
    pub id: Option<Seq<char>>,
    pub sender_id: Option<u64>,
    pub message: Option<RawMessageView>,
    pub data: Option<Seq<char>>,
}

impl View for RawCallback {
    type V = RawCallbackView;

    open spec fn view(&self) -> RawCallbackView {
        RawCallbackView {
            id: match self.id {
                Some(id) => Some(id@),
                None => None,
            },
            sender_id: self.sender_id,
            message: match self.message {
                Some(message) => Some(message@),
                None => None,
            },
            data: match self.data {
                Some(data) => Some(data@),
                None => None,
            },
        }
    }
}

/// What the top level of a delivery holds: the sequence number and the
/// three members that can carry something. A member that is absent is
/// `None`; unknown members are not looked at.
#[derive(Debug, Clone, PartialEq, Eq)]
pub struct RawUpdate {
    pub update_id: Option<u64>,
    pub callback_query: Option<RawCallback>,
    pub message: Option<RawMessage>,
    pub edited_message: Option<RawMessage>,
}

/// What a [`RawUpdate`] is.
pub struct RawUpdateView {
    pub update_id: Option<u64>,
    pub callback_query: Option<RawCallbackView>,
    pub message: Option<RawMessageView>,
    pub edited_message: Option<RawMessageView>,
}

impl View for RawUpdate {
    type V = RawUpdateView;

    open spec fn view(&self) -> RawUpdateView {
        RawUpdateView {
            update_id: self.update_id,
            callback_query: match self.callback_query {
                Some(callback) => Some(callback@),
                None => None,
            },
            message: match self.message {
                Some(message) => Some(message@),
                None => None,
            },
            edited_message: match self.edited_message {
                Some(message) => Some(message@),
                None => None,
            },
        }
    }
}

/// The character that marks a command.
pub open spec fn command_marker() -> char {
    '/'
}

/// The command name that asks which command is active.
pub open spec fn current_name() -> Seq<char> {
    "current"@
}

/// The message that `raw` makes, where all four members are there.
pub open spec fn complete_message(raw: RawMessageView) -> Option<MessageView> {
    match (raw.message_id, raw.text, raw.sender_id, raw.chat_id) {
        (Some(message_id), Some(text), Some(sender_id), Some(chat_id)) => Some(
            MessageView {
                message_id,
                text,
                from: User { id: sender_id },
                chat: Chat { id: chat_id },
            },
        ),
        _ => None,
    }
}

/// A plain message made of `raw`, or the error for a member that is not
/// there.
pub open spec fn plain_message(raw: RawMessageView) -> Result<ContentsView, ParseError> {
    match complete_message(raw) {
        Some(message) => Ok(ContentsView::Message(message)),
        None => Err(ParseError::MissingField),
    }
}

/// What text that begins with the marker asks for: the name after the
/// marker selects a command, unless it is the reserved name, which asks
/// for the active one. Either needs the chat to answer into.
pub open spec fn marked_text(text: Seq<char>, chat_id: Option<u64>) -> Result<
    ContentsView,
    ParseError,
> {
    match chat_id {
        Some(chat_id) => if text.skip(1) == current_name() {
            Ok(ContentsView::Current(chat_id))
        } else {
            Ok(ContentsView::Command(CommandView { command: text.skip(1), chat_id }))
        },
        None => Err(ParseError::MissingField),
    }
}

/// The button press that `raw` makes. The payload has to be there and to
/// decode as a token; after that every other member has to be there.
pub open spec fn button_press(raw: RawCallbackView) -> Result<ContentsView, ParseError> {
    match raw.data {
        Some(data) => match decode_token(data) {
            Some(token) => match (raw.id, raw.sender_id, raw.message) {
                (Some(id), Some(sender_id), Some(message)) => match complete_message(message) {
                    Some(message) => Ok(
                        ContentsView::CallbackMessage(
                            CallbackMessageView {
                                id,
                                from: User { id: sender_id },
                                message,
                                data: token,
                            },
                        ),
                    ),
                    None => Err(ParseError::MissingField),
                },
                _ => Err(ParseError::MissingField),
            },
            None => Err(ParseError::MalformedCallback),
        },
        None => Err(ParseError::MalformedCallback),
    }
}

/// Whether `raw` carries a message with text of at least one character.
pub open spec fn has_text(raw: RawUpdateView) -> bool {
    raw.message matches Some(message) && message.text matches Some(text) && text.len() > 0
}

/// The one shape of the delivery, by the first of these that applies: a
/// button press; a message with text, which is a command where the text
/// begins with the marker and a plain message where it does not; an
/// edited message, read as a plain message whatever its text; nothing.
pub open spec fn classified_contents(raw: RawUpdateView) -> Result<ContentsView, ParseError> {
    if raw.callback_query is Some {
        button_press(raw.callback_query->0)
    } else if has_text(raw) {
        let message = raw.message->0;
        let text = message.text->0;
        if text[0] == command_marker() {
            marked_text(text, message.chat_id)
        } else {
            plain_message(message)
        }
    } else if raw.edited_message is Some {
        plain_message(raw.edited_message->0)
    } else {
        Ok(ContentsView::Empty)
    }
}

/// The update that `raw` makes: its contents as [`classified_contents`]
/// has them, under its sequence number. An error in the contents comes
/// before a missing sequence number.
pub open spec fn classified(raw: RawUpdateView) -> Result<UpdateView, ParseError> {
    match classified_contents(raw) {
        Ok(contents) => match raw.update_id {
            Some(update_id) => Ok(UpdateView { update_id, contents }),
            None => Err(ParseError::MissingField),
        },
        Err(error) => Err(error),
    }
}

/// The number under `key` in `value`.
pub open spec fn number_at(value: serde_json::Value, key: Seq<char>) -> Option<u64> {
    match json_member(value, key) {
        Some(inner) => json_number(inner),
        None => None,
    }
}

/// The text under `key` in `value`.
pub open spec fn text_at(value: serde_json::Value, key: Seq<char>) -> Option<Seq<char>> {
    match json_member(value, key) {
        Some(inner) => json_text(inner),
        None => None,
    }
}

/// The number under `id` in the object under `key` in `value`.
pub open spec fn id_at(value: serde_json::Value, key: Seq<char>) -> Option<u64> {
    match json_member(value, key) {
        Some(inner) => number_at(inner, "id"@),
        None => None,
    }
}

/// What the message object `value` holds.
pub open spec fn raw_message_of(value: serde_json::Value) -> RawMessageView {
    RawMessageView {
        message_id: number_at(value, "message_id"@),
        text: text_at(value, "text"@),
        sender_id: id_at(value, "from"@),
        chat_id: id_at(value, "chat"@),
    }
}

/// What the message object under `key` in `value` holds, where there is
/// such a member.
pub open spec fn raw_message_at(value: serde_json::Value, key: Seq<char>) -> Option<
    RawMessageView,
> {
    match json_member(value, key) {
        Some(inner) => Some(raw_message_of(inner)),
        None => None,
    }
}

/// What the button-press object `value` holds.
pub open spec fn raw_callback_of(value: serde_json::Value) -> RawCallbackView {
    RawCallbackView {
        id: text_at(value, "id"@),
        sender_id: id_at(value, "from"@),
        message: raw_message_at(value, "message"@),
        data: text_at(value, "data"@),
    }
}

/// What the delivery `value` holds at its top level.
pub open spec fn raw_update_of(value: serde_json::Value) -> RawUpdateView {
    RawUpdateView {
        update_id: number_at(value, "update_id"@),
        callback_query: match json_member(value, "callback_query"@) {
            Some(inner) => Some(raw_callback_of(inner)),
            None => None,
        },
        message: raw_message_at(value, "message"@),
        edited_message: raw_message_at(value, "edited_message"@),
    }
}

/// What reading `bytes` gives: the members of the document, or the error
/// for bytes that are no document.
pub open spec fn read(bytes: Seq<u8>) -> Result<RawUpdateView, ParseError> {
    match json_document(bytes) {
        Some(document) => Ok(raw_update_of(document)),
        None => Err(ParseError::InvalidJson),
    }
}

/// The update that `bytes` hold.
pub open spec fn parsed(bytes: Seq<u8>) -> Result<UpdateView, ParseError> {
    match read(bytes) {
        Ok(raw) => classified(raw),
        Err(error) => Err(error),
    }
}

fn read_number(value: &serde_json::Value, key: &str) -> (found: Option<u64>)
    ensures
        found == number_at(*value, key@),
{
    match member(value, key) {
        Some(inner) => number(inner),
        None => None,
    }
}

fn read_text(value: &serde_json::Value, key: &str) -> (found: Option<String>)
    ensures
        match found {
            Some(characters) => text_at(*value, key@) == Some(characters@),
            None => text_at(*value, key@) is None,
        },
{
    match member(value, key) {
        Some(inner) => match text(inner) {
            Some(characters) => Some(characters.to_owned()),
            None => None,
        },
        None => None,
    }
}

fn read_id(value: &serde_json::Value, key: &str) -> (found: Option<u64>)
    ensures
        found == id_at(*value, key@),
{
    match member(value, key) {
        Some(inner) => read_number(inner, "id"),
        None => None,
    }
}

fn read_message(value: &serde_json::Value) -> (raw: RawMessage)
    ensures
        raw@ == raw_message_of(*value),
{
    RawMessage {
        message_id: read_number(value, "message_id"),
        text: read_text(value, "text"),
        sender_id: read_id(value, "from"),
        chat_id: read_id(value, "chat"),
    }
}

fn read_message_at(value: &serde_json::Value, key: &str) -> (raw: Option<RawMessage>)
    ensures
        match raw {
            Some(message) => raw_message_at(*value, key@) == Some(message@),
            None => raw_message_at(*value, key@) is None,
        },
{
    match member(value, key) {
        Some(inner) => Some(read_message(inner)),
        None => None,
    }
}

fn read_callback(value: &serde_json::Value) -> (raw: RawCallback)
    ensures
        raw@ == raw_callback_of(*value),
{
    RawCallback {
        id: read_text(value, "id"),
        sender_id: read_id(value, "from"),
        message: read_message_at(value, "message"),
        data: read_text(value, "data"),
    }
}

impl RawUpdate {
    /// Reads the members of a delivery out of its bytes. Fails, with
    /// `InvalidJson`, exactly where the bytes are no JSON document; a
    /// document with other members, or with none, reads as what it holds.
    pub fn read(bytes: &[u8]) -> (raw: Result<RawUpdate, ParseError>)
        ensures
            match raw {
                Ok(raw) => read(bytes@) == Ok::<RawUpdateView, ParseError>(raw@),
                Err(error) => read(bytes@) == Err::<RawUpdateView, ParseError>(error),
            },
    {
        match read_document(bytes) {
            Ok(document) => {
                let callback_query = match member(&document, "callback_query") {
                    Some(inner) => Some(read_callback(inner)),
                    None => None,
                };
                Ok(
                    RawUpdate {
                        update_id: read_number(&document, "update_id"),
                        callback_query,
                        message: read_message_at(&document, "message"),
                        edited_message: read_message_at(&document, "edited_message"),
                    },
                )
            },
            Err(_) => Err(ParseError::InvalidJson),
        }
    }
}

/// Makes a message of `raw` where all its members are there.
fn message_from(raw: RawMessage) -> (message: Option<Message>)
    ensures
        match message {
            Some(message) => complete_message(raw@) == Some(message@),
            None => complete_message(raw@) is None,
        },
{
    match (raw.message_id, raw.text, raw.sender_id, raw.chat_id) {
        (Some(message_id), Some(text), Some(sender_id), Some(chat_id)) => Some(
            Message { message_id, text, from: User { id: sender_id }, chat: Chat { id: chat_id } },
        ),
        _ => None,
    }
}

fn plain_message_from(raw: RawMessage) -> (contents: Result<Contents, ParseError>)
    ensures
        match contents {
            Ok(contents) => plain_message(raw@) == Ok::<ContentsView, ParseError>(contents@),
            Err(error) => plain_message(raw@) == Err::<ContentsView, ParseError>(error),
        },
{
    match message_from(raw) {
        Some(message) => Ok(Contents::Message(message)),
        None => Err(ParseError::MissingField),
    }
}

fn marked_text_from(text: &String, chat_id: Option<u64>) -> (contents: Result<
    Contents,
    ParseError,
>)
    requires
        text@.len() > 0,
    ensures
        match contents {
            Ok(contents) => marked_text(text@, chat_id) == Ok::<ContentsView, ParseError>(
                contents@,
            ),
            Err(error) => marked_text(text@, chat_id) == Err::<ContentsView, ParseError>(error),
        },
{
    match chat_id {
        Some(chat_id) => {
            let text = text.as_str();
            let command = text.substring_char(1, text.unicode_len()).to_owned();
            assert(command@ =~= text@.skip(1));
            if command == "current".to_owned() {
                Ok(Contents::Current(chat_id))
            } else {
                Ok(Contents::Command(Command { command, chat_id }))
            }
        },
        None => Err(ParseError::MissingField),
    }
}

fn button_press_from(raw: RawCallback) -> (contents: Result<Contents, ParseError>)
    ensures
        match contents {
            Ok(contents) => button_press(raw@) == Ok::<ContentsView, ParseError>(contents@),
            Err(error) => button_press(raw@) == Err::<ContentsView, ParseError>(error),
        },
{
    let data = match raw.data {
        Some(data) => data,
        None => {
            return Err(ParseError::MalformedCallback);
        },
    };
    let token = match CallbackData::decode(data.as_str()) {
        Some(token) => token,
        None => {
            return Err(ParseError::MalformedCallback);
        },
    };
    match (raw.id, raw.sender_id, raw.message) {
        (Some(id), Some(sender_id), Some(message)) => match message_from(message) {
            Some(message) => Ok(
                Contents::CallbackMessage(
                    CallbackMessage { id, from: User { id: sender_id }, message, data: token },
                ),
            ),
            None => Err(ParseError::MissingField),
        },
        _ => Err(ParseError::MissingField),
    }
}

fn classify_contents(
    callback_query: Option<RawCallback>,
    message: Option<RawMessage>,
    edited_message: Option<RawMessage>,
) -> (contents: Result<Contents, ParseError>)
    ensures
        ({
            let raw = RawUpdateView {
                update_id: None,
                callback_query: match callback_query {
                    Some(callback) => Some(callback@),
                    None => None,
                },
                message: match message {
                    Some(message) => Some(message@),
                    None => None,
                },
                edited_message: match edited_message {
                    Some(message) => Some(message@),
                    None => None,
                },
            };
            match contents {
                Ok(contents) => classified_contents(raw) == Ok::<ContentsView, ParseError>(
                    contents@,
                ),
                Err(error) => classified_contents(raw) == Err::<ContentsView, ParseError>(error),
            }
        }),
{
    if let Some(callback) = callback_query {
        return button_press_from(callback);
    }
    if let Some(message) = message {
        let marked = match &message.text {
            Some(text) => if text.as_str().is_empty() {
                None
            } else {
                Some(text.as_str().get_char(0) == '/')
            },
            None => None,
        };
        match marked {
            Some(true) => {
                let chat_id = message.chat_id;
                match message.text {
                    Some(text) => {
                        return marked_text_from(&text, chat_id);
                    },
                    None => {},
                }
            },
            Some(false) => {
                return plain_message_from(message);
            },
            None => {},
        }
    }
    match edited_message {
        Some(edited) => plain_message_from(edited),
        None => Ok(Contents::Empty),
    }
}

/// Decides which one shape a delivery has, from the members that were
/// read out of it. Succeeds exactly where [`classified`] does, with the
/// update that it describes, and fails with its error everywhere else.
pub fn classify(raw: RawUpdate) -> (update: Result<Update, ParseError>)
    ensures
        match update {
            Ok(update) => classified(raw@) == Ok::<UpdateView, ParseError>(update@),
            Err(error) => classified(raw@) == Err::<UpdateView, ParseError>(error),
        },
{
    let update_id = raw.update_id;
    match classify_contents(raw.callback_query, raw.message, raw.edited_message) {
        Ok(contents) => match update_id {
            Some(update_id) => Ok(Update { update_id, contents }),
            None => Err(ParseError::MissingField),
        },
        Err(error) => Err(error),
    }
}

/// Reads an update from the bytes of a delivery: the result is
/// [`parsed`] of the bytes, the update on success and the error on
/// failure.
pub fn parse(bytes: &[u8]) -> (update: Result<Update, ParseError>)
    ensures
        match update {
            Ok(update) => parsed(bytes@) == Ok::<UpdateView, ParseError>(update@),
            Err(error) => parsed(bytes@) == Err::<UpdateView, ParseError>(error),
        },
{
    match RawUpdate::read(bytes) {
        Ok(raw) => classify(raw),
        Err(error) => Err(error),
    }
}

} // verus!
