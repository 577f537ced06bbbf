//! The two states of a message: known by its permalink only, and resolved.

use vstd::prelude::*;

verus! {

/// What the states of a message have in common.
pub trait State {
    /// The permalink of the message.
    spec fn source(&self) -> Seq<char>;

    /// The permalink of the message.
    fn url(&self) -> (url: &str)
        ensures
            url@ == self.source(),
    ;
}

/// A message of which only the permalink has been read.
#[derive(Debug)]
pub struct Initialized {
    /// The permalink.
    pub url: String,
    /// The id of the channel.
    pub channel_id: String,
    /// The time of the message in microseconds, as the permalink writes it.
    pub ts: String,
    /// The time of the thread that holds the message, in seconds, where the
    /// permalink names one.
    pub thread_ts: Option<String>,
}

/// A message with everything looked up.
#[derive(Debug)]
pub struct Resolved {
    /// The permalink.
    pub url: String,
    /// The name of the channel.
    pub channel_name: String,
    /// The name of the author.
    pub user_name: String,
    /// The body, as Markdown.
    pub body: String,
    /// The time of the message in microseconds.
    pub ts: i64,
}

/// The mathematical value of an [`Initialized`].
pub struct InitializedView {
    pub url: Seq<char>,
    pub channel_id: Seq<char>,
    pub ts: Seq<char>,
    pub thread_ts: Option<Seq<char>>,
}

/// The mathematical value of a [`Resolved`].
pub struct ResolvedView {
    pub url: Seq<char>,
    pub channel_name: Seq<char>,
    pub user_name: Seq<char>,
    pub body: Seq<char>,
    pub ts: int,
}

impl DeepView for Initialized {
    type V = InitializedView;

    open spec fn deep_view(&self) -> InitializedView {
        InitializedView {
            url: self.url@,
            channel_id: self.channel_id@,
            ts: self.ts@,
            thread_ts: self.thread_ts.deep_view(),
        }
    }
}

impl DeepView for Resolved {
    type V = ResolvedView;

    open spec fn deep_view(&self) -> ResolvedView {
        ResolvedView {
            url: self.url@,
            channel_name: self.channel_name@,
            user_name: self.user_name@,
            body: self.body@,
            ts: self.ts as int,
        }
    }
}

impl State for Initialized {
    open spec fn source(&self) -> Seq<char> {
        self.url@
    }

    fn url(&self) -> (url: &str) {
        self.url.as_str()
    }
}

impl State for Resolved {
    open spec fn source(&self) -> Seq<char> {
        self.url@
    }

    fn url(&self) -> (url: &str) {
        self.url.as_str()
    }
}

} // verus!
