//! A Telegram Bot API client, all but the network.
//!
//! A [`Bot`] turns each method into a [`Call`]: its name, its JSON parameters
//! and how long it may take. [`Bot::call`] turns a call's encoded parameters
//! into the [`Post`] to send; the [`Pending`] call says what the end of the
//! exchange means, and its [`Answer`] what the reply means. The common methods are typed; anything
//! else goes through [`Bot::call`].
//!
//! The bot token is part of every request path. No [`Error`] carries it, and
//! neither a [`Bot`] nor a [`Post`] can be printed.

pub mod bot;
pub mod call;
pub mod duration;
pub mod error;
pub mod html;
pub mod json;
pub mod message;
pub mod outgoing;
pub mod text;
pub mod words;

pub use bot::{client_ceiling, request_timeout, Bot, CLIENT_CEILING_SECS, REQUEST_TIMEOUT_SECS};
pub use call::{Answer, AnyJson, Call, Outcome, Pending, Post, Reply, Response, ResponseParameters};
pub use duration::Duration;
pub use error::{Error, HttpError};
pub use html::escape_html;
pub use json::Json;
pub use message::{CallbackQuery, Chat, Command, Message, Update, User, WebhookInfo};
pub use outgoing::{
    InlineKeyboardButton, InlineKeyboardMarkup, ParseMode, ReplyParameters, SendMessage,
};
pub use text::IntoText;
