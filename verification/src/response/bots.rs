//! Answers of the `bots` family.

use vstd::prelude::*;
use crate::response::Response;

verus! {

/// A bot of the directory.
#[derive(Debug)]
pub struct Bot {
    /// The name the bot was configured with.
    pub name: String,
}

/// The answer to a lookup by bot id; `bot` is absent where the directory
/// knows no such bot.
#[derive(Debug)]
pub struct BotsInfo {
    pub bot: Option<Bot>,
}

impl Response for BotsInfo {

}

impl DeepView for Bot {
    type V = Seq<char>;

    open spec fn deep_view(&self) -> Seq<char> {
        self.name@
    }
}

impl DeepView for BotsInfo {
    type V = Option<Seq<char>>;

    open spec fn deep_view(&self) -> Option<Seq<char>> {
        self.bot.deep_view()
    }
}

} // verus!
