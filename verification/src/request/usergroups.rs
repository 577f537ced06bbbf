//! Requests of the `usergroups` family.

use vstd::prelude::*;
use crate::request::{Request, RequestMethod};
use crate::response::usergroups::UsergroupsList;

verus! {

/// Marks the requests of the `usergroups` family.
pub trait UsergroupsQuery: Request {

}

/// Asks for all user groups. The directory has no way to ask for one.
#[derive(Debug)]
pub struct List {

}

impl Request for List {
    type Response = UsergroupsList;

    open spec fn endpoint(&self) -> Seq<char> {
        "usergroups.list"@
    }

    fn path(&self) -> (path: &'static str) {
        "usergroups.list"
    }

    fn method(&self) -> (method: RequestMethod) {
        RequestMethod::Get
    }
}

impl UsergroupsQuery for List {

}

} // verus!
