//! The typed shapes of inbound updates and outbound replies, each with the
//! mathematical view that the contracts of this crate speak of.

use vstd::prelude::*;

verus! {

/// The account that sent a message or pressed a button.
#[derive(Debug, Clone, Copy, PartialEq, Eq)]
pub struct User {
    pub id: u64,
}

/// The conversation that a message belongs to and that replies go back into.
#[derive(Debug, Clone, Copy, PartialEq, Eq)]
pub struct Chat {
    pub id: u64,
}

/// A free-form text message.
#[derive(Debug, Clone, PartialEq, Eq)]
pub struct Message {
    pub message_id: u64,
    pub text: String,
    pub from: User,
    pub chat: Chat,
}

/// What a [`Message`] is, with its text as a sequence of characters.
pub struct MessageView {
    pub message_id: u64,
    pub text: Seq<char>,
    pub from: User,
    pub chat: Chat,
}

impl View for Message {
    type V = MessageView;

    open spec fn view(&self) -> MessageView {
        MessageView {
            message_id: self.message_id,
            text: self.text@,
            from: self.from,
            chat: self.chat,
        }
    }
}

/// The token carried by an inline button: the callback it routes to and,
/// optionally, the message that the button grew out of.
#[derive(Debug, Clone, PartialEq, Eq)]
pub struct CallbackData {
    pub command: String,
    pub message_id: Option<u64>,
}

/// What a [`CallbackData`] is, with its name as a sequence of characters.
pub struct CallbackDataView {
    pub command: Seq<char>,
    pub message_id: Option<u64>,
}

impl View for CallbackData {
    type V = CallbackDataView;

    open spec fn view(&self) -> CallbackDataView {
        CallbackDataView { command: self.command@, message_id: self.message_id }
    }
}

/// A press of an inline button under a message sent earlier.
#[derive(Debug, Clone, PartialEq, Eq)]
pub struct CallbackMessage {
    pub id: String,
    pub from: User,
    pub message: Message,
    pub data: CallbackData,
}

/// What a [`CallbackMessage`] is.
pub struct CallbackMessageView {
    pub id: Seq<char>,
    pub from: User,
    pub message: MessageView,
    pub data: CallbackDataView,
}

impl View for CallbackMessage {
    type V = CallbackMessageView;

    open spec fn view(&self) -> CallbackMessageView {
        CallbackMessageView {
            id: self.id@,
            from: self.from,
            message: self.message@,
            data: self.data@,
        }
    }
}

/// A request to make the named command the active one. The leading marker
/// is already stripped from `command`.
#[derive(Debug, Clone, PartialEq, Eq)]
pub struct Command {
    pub command: String,
    pub chat_id: u64,
}

/// What a [`Command`] is.
pub struct CommandView {
    pub command: Seq<char>,
    pub chat_id: u64,
}

impl View for Command {
    type V = CommandView;

    open spec fn view(&self) -> CommandView {
        CommandView { command: self.command@, chat_id: self.chat_id }
    }
}

/// The one thing that an update carries.
#[derive(Debug, Clone, PartialEq, Eq)]
pub enum Contents {
    /// Text that began with the command marker.
    Command(Command),
    /// Plain text.
    Message(Message),
    /// A press of an inline button.
    CallbackMessage(CallbackMessage),
    /// A question, from the given chat, which command is active.
    Current(u64),
    /// Nothing that the bot acts on.
    Empty,
}

/// What a [`Contents`] is.
pub enum ContentsView {
    Command(CommandView),
    Message(MessageView),
    CallbackMessage(CallbackMessageView),
    Current(u64),
    Empty,
}

impl View for Contents {
    type V = ContentsView;

    open spec fn view(&self) -> ContentsView {
        match self {
            Contents::Command(command) => ContentsView::Command(command@),
            Contents::Message(message) => ContentsView::Message(message@),
            Contents::CallbackMessage(callback) => ContentsView::CallbackMessage(callback@),
            Contents::Current(chat_id) => ContentsView::Current(*chat_id),
            Contents::Empty => ContentsView::Empty,
        }
    }
}

impl ContentsView {
    /// The chat that a reply to these contents goes into; none where
    /// nothing was carried.
    pub open spec fn chat_id(self) -> Option<u64> {
        match self {
            ContentsView::Command(command) => Some(command.chat_id),
            ContentsView::Message(message) => Some(message.chat.id),
            ContentsView::CallbackMessage(callback) => Some(callback.message.chat.id),
            ContentsView::Current(chat_id) => Some(chat_id),
            ContentsView::Empty => None,
        }
    }
}

/// One inbound delivery: a sequence number and what it carries.
#[derive(Debug, Clone, PartialEq, Eq)]
pub struct Update {
    pub update_id: u64,
    pub contents: Contents,
}

/// What an [`Update`] is.
pub struct UpdateView {
    pub update_id: u64,
    pub contents: ContentsView,
}

impl View for Update {
    type V = UpdateView;

    open spec fn view(&self) -> UpdateView {
        UpdateView { update_id: self.update_id, contents: self.contents@ }
    }
}

impl Update {
    /// The chat to answer into, if the update carries anything.
    pub fn chat_id(&self) -> (chat_id: Option<u64>)
        ensures
            chat_id == self@.contents.chat_id(),
    {
        match &self.contents {
            Contents::Command(command) => Some(command.chat_id),
            Contents::Message(message) => Some(message.chat.id),
            Contents::CallbackMessage(callback_message) => Some(callback_message.message.chat.id),
            Contents::Current(chat_id) => Some(*chat_id),
            Contents::Empty => None,
        }
    }
}

/// One button of an inline keyboard.
#[derive(Debug, Clone, PartialEq, Eq)]
pub struct InlineKeyboardButton {
    pub text: String,
    pub callback_data: CallbackData,
}

/// What an [`InlineKeyboardButton`] is.
pub struct InlineKeyboardButtonView {
    pub text: Seq<char>,
    pub callback_data: CallbackDataView,
}

impl View for InlineKeyboardButton {
    type V = InlineKeyboardButtonView;

    open spec fn view(&self) -> InlineKeyboardButtonView {
        InlineKeyboardButtonView { text: self.text@, callback_data: self.callback_data@ }
    }
}

/// The buttons under a reply, row by row.
#[derive(Debug, Clone, PartialEq, Eq)]
pub struct InlineKeyboardMarkup {
    pub inline_keyboard: Vec<Vec<InlineKeyboardButton>>,
}

impl View for InlineKeyboardMarkup {
    type V = Seq<Seq<InlineKeyboardButtonView>>;

    open spec fn view(&self) -> Seq<Seq<InlineKeyboardButtonView>> {
        self.inline_keyboard@.map_values(
            |row: Vec<InlineKeyboardButton>|
                row@.map_values(|button: InlineKeyboardButton| button@),
        )
    }
}

/// The one reply that a dispatch produces.
#[derive(Debug, Clone, PartialEq, Eq)]
pub struct ResponseMessage {
    pub chat_id: u64,
    pub text: String,
    pub parse_mode: Option<String>,
    pub reply_markup: Option<InlineKeyboardMarkup>,
}

/// What a [`ResponseMessage`] is.
pub struct ResponseMessageView {
    pub chat_id: u64,
    pub text: Seq<char>,
    pub parse_mode: Option<Seq<char>>,
    pub reply_markup: Option<Seq<Seq<InlineKeyboardButtonView>>>,
}

impl View for ResponseMessage {
    type V = ResponseMessageView;

    open spec fn view(&self) -> ResponseMessageView {
        ResponseMessageView {
            chat_id: self.chat_id,
            text: self.text@,
            parse_mode: match self.parse_mode {
                Some(mode) => Some(mode@),
                None => None,
            },
            reply_markup: match self.reply_markup {
                Some(markup) => Some(markup@),
                None => None,
            },
        }
    }
}

impl ResponseMessage {
    /// The reply that carries `text` alone: no formatting mode, no keyboard.
    pub open spec fn plain(chat_id: u64, text: Seq<char>) -> ResponseMessageView {
        ResponseMessageView { chat_id, text, parse_mode: None, reply_markup: None }
    }

    /// A reply of plain text into `chat_id`.
    pub fn text(chat_id: u64, text: String) -> (reply: ResponseMessage)
        ensures
            reply@ == Self::plain(chat_id, text@),
    {
        ResponseMessage { chat_id, text, parse_mode: None, reply_markup: None }
    }
}

} // verus!
