//! Answers of the `users` family.

use vstd::prelude::*;
use crate::response::Response;

verus! {

/// The part of a user's profile that the library reads.
#[derive(Debug)]
pub struct Profile {
    /// The name shown in the chat client; may be empty.
    pub display_name: String,
}

/// An identity of the directory.
#[derive(Debug)]
pub struct User {
    /// The plain account name.
    pub name: String,
    /// The real name.
    pub real_name: String,
    /// The profile.
    pub profile: Profile,
    /// Whether the identity is a bot.
    pub is_bot: bool,
}

/// The answer to a lookup by user id; `user` is absent where the directory
/// knows no such identity.
#[derive(Debug)]
pub struct UsersInfo {
    pub user: Option<User>,
}

impl Response for UsersInfo {

}

/// The mathematical value of a [`User`].
pub struct UserView {
    pub name: Seq<char>,
    pub real_name: Seq<char>,
    pub display_name: Seq<char>,
    pub is_bot: bool,
}

impl DeepView for User {
    type V = UserView;

    open spec fn deep_view(&self) -> UserView {
        UserView {
            name: self.name@,
            real_name: self.real_name@,
            display_name: self.profile.display_name@,
            is_bot: self.is_bot,
        }
    }
}

impl DeepView for UsersInfo {
    type V = Option<UserView>;

    open spec fn deep_view(&self) -> Option<UserView> {
        self.user.deep_view()
    }
}

/// The name under which a user is shown: the real name for a bot, else the
/// display name, else, where that is empty, the account name.
pub open spec fn user_name(user: UserView) -> Seq<char> {
    if user.is_bot {
        user.real_name
    } else if user.display_name.len() == 0 {
        user.name
    } else {
        user.display_name
    }
}

impl User {
    /// The name under which the user is shown.
    pub fn shown_name(&self) -> (name: String)
        ensures
            name@ == user_name(self.deep_view()),
    {
        if self.is_bot {
            self.real_name.clone()
        } else if self.profile.display_name.as_str().is_empty() {
            self.name.clone()
        } else {
            self.profile.display_name.clone()
        }
    }
}

} // verus!
