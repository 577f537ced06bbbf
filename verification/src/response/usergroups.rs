//! Answers of the `usergroups` family.

use vstd::prelude::*;
use vstd::string::*;
use crate::response::Response;

verus! {

/// A named group of identities that one handle mentions.
#[derive(Debug)]
pub struct Usergroup {
    /// The id of the group.
    pub id: String,
    /// The handle by which the group is mentioned.
    pub handle: String,
}

/// The answer to the request for all groups; `usergroups` is absent where
/// the directory sent no list.
#[derive(Debug)]
pub struct UsergroupsList {
    pub usergroups: Option<Vec<Usergroup>>,
}

impl Response for UsergroupsList {

}

/// The mathematical value of a [`Usergroup`].
pub struct UsergroupView {
    pub id: Seq<char>,
    pub handle: Seq<char>,
}

impl DeepView for Usergroup {
    type V = UsergroupView;

    open spec fn deep_view(&self) -> UsergroupView {
        UsergroupView { id: self.id@, handle: self.handle@ }
    }
}

impl DeepView for UsergroupsList {
    type V = Option<Seq<UsergroupView>>;

    open spec fn deep_view(&self) -> Option<Seq<UsergroupView>> {
        self.usergroups.deep_view()
    }
}

/// The handle of the first group of `groups`, among its first `count`, whose
/// id is `id`.
pub open spec fn handle_among(groups: Seq<UsergroupView>, id: Seq<char>, count: int) -> Option<
    Seq<char>,
>
    decreases count,
{
    if count <= 0 || count > groups.len() {
        None
    } else {
        match handle_among(groups, id, count - 1) {
            Some(handle) => Some(handle),
            None => if groups[count - 1].id == id {
                Some(groups[count - 1].handle)
            } else {
                None
            },
        }
    }
}

/// The handle of the first group of `groups` whose id is `id`.
pub open spec fn handle_of(groups: Seq<UsergroupView>, id: Seq<char>) -> Option<Seq<char>> {
    handle_among(groups, id, groups.len() as int)
}

/// A handle is found exactly where some group of the list has the id, and
/// the handle found is that of the first such group.
pub proof fn law_handle_is_of_the_first_match(groups: Seq<UsergroupView>, id: Seq<char>, count: int)
    requires
        0 <= count <= groups.len(),
    ensures
        handle_among(groups, id, count) is Some <==> exists|i: int|
            0 <= i < count && #[trigger] groups[i].id == id,
        handle_among(groups, id, count) matches Some(handle) ==> exists|i: int|
            0 <= i < count && #[trigger] groups[i].id == id && groups[i].handle == handle && forall|
                j: int,
            |
                0 <= j < i ==> #[trigger] groups[j].id != id,
    decreases count,
{
    if count > 0 {
        law_handle_is_of_the_first_match(groups, id, count - 1);
        if handle_among(groups, id, count - 1) is None {
            if groups[count - 1].id == id {
                assert(forall|j: int| 0 <= j < count - 1 ==> #[trigger] groups[j].id != id);
            }
        }
    }
}

/// Looks `id` up in `groups`.
pub fn find_handle<'a>(groups: &'a Vec<Usergroup>, id: &str) -> (found: Option<&'a str>)
    ensures
        found.deep_view() == handle_of(groups.deep_view(), id@),
{
    let wanted = String::from_str(id);
    let mut index: usize = 0;
    while index < groups.len()
        invariant
            index <= groups.len(),
            wanted@ == id@,
            handle_among(groups.deep_view(), id@, index as int) is None,
        decreases groups.len() - index,
    {
        if groups[index].id == wanted {
            assert(handle_among(groups.deep_view(), id@, index as int + 1) == Some(
                groups[index as int].handle@,
            ));
            proof {
                lemma_handle_stays(groups.deep_view(), id@, index as int + 1, groups.len() as int);
            }
            return Some(groups[index].handle.as_str());
        }
        index = index + 1;
    }
    None
}

/// Once a handle is found among the first groups, it stays the one found
/// among more of them.
proof fn lemma_handle_stays(groups: Seq<UsergroupView>, id: Seq<char>, count: int, more: int)
    requires
        0 <= count <= more <= groups.len(),
        handle_among(groups, id, count) is Some,
    ensures
        handle_among(groups, id, more) == handle_among(groups, id, count),
    decreases more - count,
{
    if count < more {
        lemma_handle_stays(groups, id, count, more - 1);
    }
}

} // verus!
