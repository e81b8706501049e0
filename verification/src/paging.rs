//! Fetching every friend page by page: the pages asked for, what is kept of
//! each reply, and when to stop.
use vstd::prelude::*;

use crate::endpoint::Endpoint;
use crate::friends::{unsanitize_all, unsanitized_users};
use crate::unsanitize::Unsanitizer;
use crate::user::User;

verus! {

/// How many friends one page holds.
pub const FRIENDS_PAGE_SIZE: u16 = 50;

/// The friends gathered so far and the offset of the next page to ask for.
pub struct FriendPages {
    pub offset: u16,
    pub friends: Vec<User>,
}

impl FriendPages {
    /// Nothing gathered yet; the first page starts at offset 0.
    pub fn new() -> (r: FriendPages)
        ensures
            r.offset == 0,
            r.friends@ == Seq::<User>::empty(),
    {
        FriendPages { offset: 0, friends: Vec::new() }
    }

    /// The request for the next page of friends, offline ones or not.
    pub fn next_page(&self, offline: bool) -> (e: Endpoint)
        ensures
            e == (Endpoint::FriendsPage { offline, offset: self.offset }),
    {
        Endpoint::FriendsPage { offline, offset: self.offset }
    }

    /// Takes in the reply to the page at the current offset. An empty page
    /// ends the paging and changes nothing (`false`); any other page is
    /// appended, and the offset moves on by one page (`true`).
    pub fn on_page(&mut self, page: Vec<User>) -> (more: bool)
        requires
            page@.len() == 0 || old(self).offset + FRIENDS_PAGE_SIZE <= u16::MAX,
        ensures
            more == (page@.len() > 0),
            more ==> final(self).friends@ == old(self).friends@ + page@,
            more ==> final(self).offset == old(self).offset + FRIENDS_PAGE_SIZE,
            !more ==> *final(self) == *old(self),
    {
        if page.len() == 0 {
            return false;
        }
        let mut page = page;
        self.friends.append(&mut page);
        self.offset = self.offset + FRIENDS_PAGE_SIZE;
        true
    }

    /// Every friend gathered, in the order the pages gave them, with the
    /// look-alike replacement undone.
    pub fn finish(self, un: &Unsanitizer) -> (r: Vec<User>)
        ensures
            unsanitized_users(self.friends@, r@),
    {
        let mut friends = self.friends;
        unsanitize_all(&mut friends, un);
        friends
    }
}

} // verus!
