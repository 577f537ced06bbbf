//! Resolving a chat message from its permalink.
//!
//! A permalink names a channel and the time at which a message was posted
//! there. From it this library works out what to ask the directory of the
//! workspace, one request at a time, and makes of the answers the name of the
//! channel, the name of the author and the body of the message as Markdown:
//! mentions of users, channels and user groups replaced by names, links
//! rewritten, emoji shortcodes expanded.
//!
//! The library sends nothing itself. [`SlackMessage::try_from`] reads a
//! permalink, [`SlackMessage::resolve`] hands out the first request, and
//! [`message::Resolution::advance`] takes each answer and hands out the next
//! request, until the message is resolved or cannot be.
//!
//! Everything here is verified with Verus, but for the few calls into other
//! crates: the search for a pattern ([`pattern`]), the parsing of a URL
//! ([`permalink`]) and the template engine ([`copier`]).

pub mod copier;
pub mod emojify;
pub mod error;
pub mod message;
pub mod mrkdwn;
pub mod pattern;
pub mod permalink;
pub mod request;
pub mod response;
pub mod rich_text;
pub mod template;
pub mod text;

pub use copier::Copier;
pub use emojify::Emojify;
pub use message::SlackMessage;
