//! Requests of the `bots` family.

use vstd::prelude::*;
use crate::request::{Request, RequestMethod};
use crate::response::bots::BotsInfo;

verus! {

/// Marks the requests of the `bots` family.
pub trait BotsQuery: Request {

}

/// Asks for a bot by its id.
#[derive(Debug)]
pub struct Info {
    /// The id of the bot.
    pub id: String,
}

impl Request for Info {
    type Response = BotsInfo;

    open spec fn endpoint(&self) -> Seq<char> {
        "bots.info"@
    }

    fn path(&self) -> (path: &'static str) {
        "bots.info"
    }

    fn method(&self) -> (method: RequestMethod) {
        RequestMethod::Get
    }
}

impl BotsQuery for Info {

}

} // verus!
