//! The dispatch core of a chat-bot webhook receiver.
//!
//! An inbound delivery is parsed into an [`Update`] of exactly one shape
//! ([`parse`]), the [`Bot`] decides which registered handler the update
//! goes to ([`Bot::step`], [`Bot::route`]), and the handler's answer, or
//! the bot's own, is the one reply ([`Bot::dispatch`]).

pub mod bot;
pub mod delivery;
pub mod dispatch;
pub mod json;
pub mod messages;
pub mod parse;
pub mod registry;
pub mod state;
pub mod token;

pub use crate::bot::{Bot, BotView, DispatchError, HandlerFailure, Route, Step};
pub use crate::delivery::{delivered, BotResponse, Sender};
pub use crate::dispatch::{respond, settle, Rejection};
pub use crate::messages::{
    CallbackData, CallbackMessage, Chat, Command, Contents, InlineKeyboardButton,
    InlineKeyboardMarkup, Message, ResponseMessage, Update, User,
};
pub use crate::parse::{classify, parse, ParseError, RawCallback, RawMessage, RawUpdate};
pub use crate::registry::{RegistryError, Table};
pub use crate::state::ActiveCommand;
pub use crate::token::parse_unsigned;
