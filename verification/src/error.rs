//! The ways in which resolving a permalink can fail.

use vstd::prelude::*;
use vstd::string::*;

verus! {

/// Why a permalink could not be resolved. Each of these ends the resolution;
/// none is retried.
#[derive(Clone, Copy, Debug, PartialEq, Eq, Structural)]
pub enum ResolveError {
    /// The permalink does not name a channel and a message.
    MalformedLocation,
    /// The directory knows no such channel.
    ChannelNotFound,
    /// Neither the history of the channel nor the thread holds the message.
    MessageNotFound,
    /// The message names neither a user nor a bot as its author.
    NoAuthor,
    /// The directory knows no such user.
    UserNotFound,
    /// The directory knows no such bot.
    BotNotFound,
    /// The directory could not be reached, or its answer could not be read.
    DirectoryUnavailable,
    /// The message is not in the state that the call needs.
    IllegalState,
}

impl ResolveError {
    /// A sentence that says what went wrong.
    pub fn to_string(&self) -> (out: String)
        ensures
            out@ == self.message(),
    {
        match self {
            ResolveError::MalformedLocation => String::from_str(
                "The link does not point to a message",
            ),
            ResolveError::ChannelNotFound => String::from_str("Channel not found"),
            ResolveError::MessageNotFound => String::from_str("No messages found"),
            ResolveError::NoAuthor => String::from_str("No user or bot found"),
            ResolveError::UserNotFound => String::from_str("User not found"),
            ResolveError::BotNotFound => String::from_str("Bot not found"),
            ResolveError::DirectoryUnavailable => String::from_str(
                "The directory could not be reached",
            ),
            ResolveError::IllegalState => String::from_str(
                "The message is not in the state this needs",
            ),
        }
    }

    /// The sentence that says what went wrong.
    pub open spec fn message(&self) -> Seq<char> {
        match self {
            ResolveError::MalformedLocation => "The link does not point to a message"@,
            ResolveError::ChannelNotFound => "Channel not found"@,
            ResolveError::MessageNotFound => "No messages found"@,
            ResolveError::NoAuthor => "No user or bot found"@,
            ResolveError::UserNotFound => "User not found"@,
            ResolveError::BotNotFound => "Bot not found"@,
            ResolveError::DirectoryUnavailable => "The directory could not be reached"@,
            ResolveError::IllegalState => "The message is not in the state this needs"@,
        }
    }
}

/// The mathematical value of what a fallible step came to: that of its
/// result where it succeeded, and the error where it failed.
pub open spec fn outcome<T: DeepView>(result: Result<T, ResolveError>) -> Result<
    T::V,
    ResolveError,
> {
    match result {
        Ok(value) => Ok(value.deep_view()),
        Err(error) => Err(error),
    }
}

} // verus!
