//! Requests of the `users` family.

use vstd::prelude::*;
use crate::request::{Request, RequestMethod};
use crate::response::users::UsersInfo;

verus! {

/// Marks the requests of the `users` family.
pub trait UsersQuery: Request {

}

/// Asks for a user by its id.
#[derive(Debug)]
pub struct Info {
    /// The id of the user.
    pub id: String,
}

impl Request for Info {
    type Response = UsersInfo;

    open spec fn endpoint(&self) -> Seq<char> {
        "users.info"@
    }

    fn path(&self) -> (path: &'static str) {
        "users.info"
    }

    fn method(&self) -> (method: RequestMethod) {
        RequestMethod::Get
    }
}

impl UsersQuery for Info {

}

} // verus!
