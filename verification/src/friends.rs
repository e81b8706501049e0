use vstd::prelude::*;

use crate::ordering::{sort_by_status, sorted_by_status};
use crate::status::Status;
use crate::text::is_text;
use crate::unsanitize::{unsanitized, Unsanitizer};
use crate::user::User;

verus! {

/// The user at `i` is the first one in `s` with the id `id`.
pub open spec fn is_first_with_id(s: Seq<User>, id: Seq<char>, i: int) -> bool {
    &&& 0 <= i < s.len()
    &&& s[i].id@ == id
    &&& forall|j: int| 0 <= j < i ==> (#[trigger] s[j]).id@ != id
}

/// Some user of `s` has the id `id`.
pub open spec fn contains_id(s: Seq<User>, id: Seq<char>) -> bool {
    exists|i: int| 0 <= i < s.len() && (#[trigger] s[i]).id@ == id
}

/// The index of the first user of `s` with the id `id`, where there is one.
pub open spec fn first_with_id(s: Seq<User>, id: Seq<char>) -> int {
    choose|i: int| is_first_with_id(s, id, i)
}

/// `s` without its first user of id `id` (`s` itself where there is none).
pub open spec fn without_first_id(s: Seq<User>, id: Seq<char>) -> Seq<User> {
    if contains_id(s, id) {
        s.remove(first_with_id(s, id))
    } else {
        s
    }
}

/// There is only one first user with a given id.
pub proof fn lemma_first_unique(s: Seq<User>, id: Seq<char>, i: int)
    requires
        is_first_with_id(s, id, i),
    ensures
        first_with_id(s, id) == i,
        contains_id(s, id),
{
    assert(exists|k: int| is_first_with_id(s, id, k));
    let k = first_with_id(s, id);
    if k < i {
        assert(s[k].id@ != id);
    } else if k > i {
        assert(s[i].id@ != id);
    }
}

/// Where `s` holds the id, its first user with it exists.
pub proof fn lemma_first_exists(s: Seq<User>, id: Seq<char>)
    requires
        contains_id(s, id),
    ensures
        is_first_with_id(s, id, first_with_id(s, id)),
    decreases s.len(),
{
    if s[0].id@ == id {
        lemma_first_unique(s, id, 0);
    } else {
        let t = s.drop_first();
        let w = choose|i: int| 0 <= i < s.len() && (#[trigger] s[i]).id@ == id;
        assert(t[w - 1] == s[w]);
        lemma_first_exists(t, id);
        let k = first_with_id(t, id);
        assert(is_first_with_id(s, id, k + 1)) by {
            assert forall|j: int| 0 <= j < k + 1 implies (#[trigger] s[j]).id@ != id by {
                if j > 0 {
                    assert(s[j] == t[j - 1]);
                }
            }
        }
        lemma_first_unique(s, id, k + 1);
    }
}

/// The index of the first user of `v` with the id `id`.
pub fn position_of_id(v: &Vec<User>, id: &str) -> (r: Option<usize>)
    ensures
        match r {
            Some(i) => is_first_with_id(v@, id@, i as int),
            None => !contains_id(v@, id@),
        },
{
    let mut i: usize = 0;
    while i < v.len()
        invariant
            0 <= i <= v.len(),
            forall|j: int| 0 <= j < i ==> (#[trigger] v@[j]).id@ != id@,
        decreases v.len() - i,
    {
        if v[i].id == String::from_str(id) {
            return Some(i);
        }
        i = i + 1;
    }
    None
}

/// Removes the first user of `v` with the id `id` and hands it back; leaves
/// `v` as it is and gives `None` where no user has that id.
pub fn find_remove(v: &mut Vec<User>, id: &str) -> (r: Option<User>)
    ensures
        final(v)@ == without_first_id(old(v)@, id@),
        r == if contains_id(old(v)@, id@) {
            Some(old(v)@[first_with_id(old(v)@, id@)])
        } else {
            None::<User>
        },
{
    match position_of_id(v, id) {
        Some(i) => {
            proof {
                lemma_first_unique(v@, id@, i as int);
            }
            Some(v.remove(i))
        },
        None => None,
    }
}

/// Adds `u` to `v` and orders `v` by status again.
pub fn push_and_sort(v: &mut Vec<User>, u: User)
    ensures
        final(v)@ == sorted_by_status(old(v)@.push(u)),
{
    v.push(u);
    sort_by_status(v);
}

/// The friend lists of the account, and the account itself.
///
/// `online` holds the friends in a world, `web` those active on the website,
/// `offline` the others.
pub struct Friends {
    pub online: Vec<User>,
    pub web: Vec<User>,
    pub offline: Vec<User>,
    pub myself: Option<User>,
}

/// The contents of `Friends`.
pub struct FriendLists {
    pub online: Seq<User>,
    pub web: Seq<User>,
    pub offline: Seq<User>,
    pub myself: Option<User>,
}

impl View for Friends {
    type V = FriendLists;

    open spec fn view(&self) -> FriendLists {
        FriendLists {
            online: self.online@,
            web: self.web@,
            offline: self.offline@,
            myself: self.myself,
        }
    }
}

/// One of the three friend lists.
#[derive(Clone, Copy)]
pub enum ListKind {
    Online,
    Web,
    Offline,
}

/// The list `k` of `f`.
pub open spec fn list_of(f: FriendLists, k: ListKind) -> Seq<User> {
    match k {
        ListKind::Online => f.online,
        ListKind::Web => f.web,
        ListKind::Offline => f.offline,
    }
}

/// `f` with its list `k` replaced by `s`.
pub open spec fn with_list(f: FriendLists, k: ListKind, s: Seq<User>) -> FriendLists {
    match k {
        ListKind::Online => FriendLists { online: s, web: f.web, offline: f.offline, myself: f.myself },
        ListKind::Web => FriendLists { online: f.online, web: s, offline: f.offline, myself: f.myself },
        ListKind::Offline => FriendLists { online: f.online, web: f.web, offline: s, myself: f.myself },
    }
}

/// `f` without the friend `id`: taken out of the first list in `order` that
/// holds it, once.
pub open spec fn remove_in_order(f: FriendLists, id: Seq<char>, order: Seq<ListKind>) -> FriendLists
    decreases order.len(),
{
    if order.len() == 0 {
        f
    } else if contains_id(list_of(f, order[0]), id) {
        with_list(f, order[0], without_first_id(list_of(f, order[0]), id))
    } else {
        remove_in_order(f, id, order.drop_first())
    }
}

/// The user is somewhere in a world: at a location other than `offline`.
pub open spec fn is_in_world(u: User) -> bool {
    u.location is Some && u.location->0@ != "offline"@
}

/// Whether the user is somewhere in a world.
pub fn in_world(u: &User) -> (r: bool)
    ensures
        r == is_in_world(*u),
{
    match &u.location {
        Some(l) => !is_text(l.as_str(), "offline"),
        None => false,
    }
}

/// The status leaves open whether the friend is in a world or on the website.
pub open spec fn is_undetermined_status(s: Status) -> bool {
    s == Status::AskMe || s == Status::Busy
}

/// The lists after a friend was seen at a location (`friend-online`,
/// `friend-location`): a friend already online is replaced in place, and the
/// list is ordered again where the status changed; any other friend leaves
/// the offline or web list and joins the online list.
pub open spec fn after_location(f: FriendLists, u: User) -> FriendLists {
    if contains_id(f.online, u.id@) {
        let i = first_with_id(f.online, u.id@);
        let updated = f.online.update(i, u);
        with_list(
            f,
            ListKind::Online,
            if f.online[i].status != u.status {
                sorted_by_status(updated)
            } else {
                updated
            },
        )
    } else {
        let g = remove_in_order(f, u.id@, seq![ListKind::Offline, ListKind::Web]);
        with_list(g, ListKind::Online, sorted_by_status(g.online.push(u)))
    }
}

/// The lists after a friend became active on the website (`friend-active`).
pub open spec fn after_active(f: FriendLists, u: User) -> FriendLists {
    let g = remove_in_order(f, u.id@, seq![ListKind::Offline, ListKind::Online, ListKind::Web]);
    with_list(g, ListKind::Web, sorted_by_status(g.web.push(u)))
}

/// The list that a new friend joins (`friend-add`); `active` tells whether the
/// account's active friends include it, which decides only for a friend in a
/// world whose status leaves the place open.
pub open spec fn list_for_new_friend(u: User, active: bool) -> ListKind {
    if is_in_world(u) {
        if is_undetermined_status(u.status) && active {
            ListKind::Web
        } else {
            ListKind::Online
        }
    } else {
        ListKind::Offline
    }
}

/// The lists after a friend was added (`friend-add`).
pub open spec fn after_add(f: FriendLists, u: User, active: bool) -> FriendLists {
    let k = list_for_new_friend(u, active);
    with_list(f, k, sorted_by_status(list_of(f, k).push(u)))
}

/// The lists after a friendship ended (`friend-delete`).
pub open spec fn after_delete(f: FriendLists, id: Seq<char>) -> FriendLists {
    remove_in_order(f, id, seq![ListKind::Offline, ListKind::Web, ListKind::Online])
}

/// `u` gone offline: offline status, no location.
pub open spec fn gone_offline(u: User) -> User {
    User { status: Status::Offline, location: None, travelingToLocation: None, ..u }
}

/// The lists after a friend went offline (`friend-offline`): a friend online,
/// or else on the website, moves to the end of the offline list.
pub open spec fn after_offline(f: FriendLists, id: Seq<char>) -> FriendLists {
    if contains_id(f.online, id) {
        let u = f.online[first_with_id(f.online, id)];
        FriendLists {
            online: without_first_id(f.online, id),
            web: f.web,
            offline: f.offline.push(gone_offline(u)),
            myself: f.myself,
        }
    } else if contains_id(f.web, id) {
        let u = f.web[first_with_id(f.web, id)];
        FriendLists {
            online: f.online,
            web: without_first_id(f.web, id),
            offline: f.offline.push(gone_offline(u)),
            myself: f.myself,
        }
    } else {
        f
    }
}

impl Friends {
    /// No friends, and no account yet.
    pub fn new() -> (r: Friends)
        ensures
            r@.online.len() == 0,
            r@.web.len() == 0,
            r@.offline.len() == 0,
            r@.myself is None,
    {
        Friends { online: Vec::new(), web: Vec::new(), offline: Vec::new(), myself: None }
    }

    /// Takes the friend `id` out of the first list in `order` that holds it.
    fn remove_friend(&mut self, id: &str, order: &[ListKind])
        ensures
            final(self)@ == remove_in_order(old(self)@, id@, order@),
    {
        let ghost start = self@;
        let mut i: usize = 0;
        proof {
            assert(order@.skip(0) =~= order@);
        }
        while i < order.len()
            invariant
                self@ == start,
                start == old(self)@,
                0 <= i <= order@.len(),
                remove_in_order(start, id@, order@) == remove_in_order(start, id@, order@.skip(i as int)),
            decreases order.len() - i,
        {
            let k = order[i];
            let removed = match k {
                ListKind::Online => find_remove(&mut self.online, id),
                ListKind::Web => find_remove(&mut self.web, id),
                ListKind::Offline => find_remove(&mut self.offline, id),
            };
            proof {
                assert(order@.skip(i as int)[0] == k);
                assert(order@.skip(i as int).drop_first() == order@.skip(i + 1));
            }
            if removed.is_some() {
                proof {
                    assert(contains_id(list_of(start, k), id@));
                    assert(remove_in_order(start, id@, order@.skip(i as int)) == with_list(
                        start,
                        k,
                        without_first_id(list_of(start, k), id@),
                    ));
                    assert(self@ == with_list(start, k, without_first_id(list_of(start, k), id@)));
                }
                return;
            }
            proof {
                assert(self@ == start);
            }
            i = i + 1;
        }
        proof {
            assert(order@.skip(i as int) =~= Seq::<ListKind>::empty());
        }
    }

    /// A friend was seen at a location (`friend-online`, `friend-location`).
    pub fn on_location(&mut self, u: User)
        ensures
            final(self)@ == after_location(old(self)@, u),
    {
        let ghost f = self@;
        match position_of_id(&self.online, u.id.as_str()) {
            Some(i) => {
                proof {
                    lemma_first_unique(self.online@, u.id@, i as int);
                }
                let need_to_be_sorted = self.online[i].status != u.status;
                self.online.set(i, u);
                if need_to_be_sorted {
                    sort_by_status(&mut self.online);
                }
            },
            None => {
                let order = [ListKind::Offline, ListKind::Web];
                proof {
                    assert(order@ == seq![ListKind::Offline, ListKind::Web]);
                }
                self.remove_friend(u.id.as_str(), &order);
                push_and_sort(&mut self.online, u);
            },
        }
    }

    /// A friend was seen at a location (`friend-online`, `friend-location`),
    /// as the event gives it: the look-alike replacement is undone in its bio
    /// and status description, then it is placed as `on_location` places it.
    pub fn on_location_event(&mut self, u: User, un: &Unsanitizer)
        ensures
            exists|v: User|
                #[trigger] unsanitized_user(u, v) && final(self)@ == after_location(old(self)@, v),
    {
        let mut v = u;
        v.unsanitize(un);
        let ghost placed = v;
        assert(unsanitized_user(u, placed));
        self.on_location(v);
    }

    /// A friend became active on the website (`friend-active`).
    pub fn on_active(&mut self, u: User)
        ensures
            final(self)@ == after_active(old(self)@, u),
    {
        let order = [ListKind::Offline, ListKind::Online, ListKind::Web];
        proof {
            assert(order@ == seq![ListKind::Offline, ListKind::Online, ListKind::Web]);
        }
        self.remove_friend(u.id.as_str(), &order);
        push_and_sort(&mut self.web, u);
    }

    /// Whether placing the new friend `u` needs to know if the account's
    /// active friends include it.
    pub fn needs_active_check(u: &User) -> (r: bool)
        ensures
            r == (is_in_world(*u) && is_undetermined_status(u.status)),
    {
        let in_world = in_world(u);
        in_world && (u.status == Status::AskMe || u.status == Status::Busy)
    }

    /// A friend was added (`friend-add`); `active` tells whether the
    /// account's active friends include it.
    pub fn on_add(&mut self, u: User, active: bool)
        ensures
            final(self)@ == after_add(old(self)@, u, active),
    {
        let in_world = in_world(&u);
        if in_world {
            if (u.status == Status::AskMe || u.status == Status::Busy) && active {
                push_and_sort(&mut self.web, u);
            } else {
                push_and_sort(&mut self.online, u);
            }
        } else {
            push_and_sort(&mut self.offline, u);
        }
    }

    /// A friend was added (`friend-add`), as the request for it gave it: the
    /// look-alike replacement is undone in its bio and status description,
    /// then it is placed as `on_add` places it.
    pub fn on_add_event(&mut self, u: User, active: bool, un: &Unsanitizer)
        ensures
            exists|v: User|
                #[trigger] unsanitized_user(u, v) && final(self)@ == after_add(old(self)@, v, active),
    {
        let mut v = u;
        v.unsanitize(un);
        let ghost placed = v;
        assert(unsanitized_user(u, placed));
        self.on_add(v, active);
    }

    /// A friendship ended (`friend-delete`).
    pub fn on_delete(&mut self, id: &str)
        ensures
            final(self)@ == after_delete(old(self)@, id@),
    {
        let order = [ListKind::Offline, ListKind::Web, ListKind::Online];
        proof {
            assert(order@ == seq![ListKind::Offline, ListKind::Web, ListKind::Online]);
        }
        self.remove_friend(id, &order);
    }

    /// A friend went offline (`friend-offline`).
    pub fn on_offline(&mut self, id: &str)
        ensures
            final(self)@ == after_offline(old(self)@, id@),
    {
        let found = match find_remove(&mut self.online, id) {
            Some(u) => Some(u),
            None => find_remove(&mut self.web, id),
        };
        if let Some(mut friend) = found {
            friend.status = Status::default();
            friend.location = None;
            friend.travelingToLocation = None;
            self.offline.push(friend);
        }
    }

    /// The account itself was seen at a location (`user-location`).
    pub fn on_user_location(&mut self, u: User)
        ensures
            final(self)@ == (FriendLists { myself: Some(u), ..old(self)@ }),
    {
        self.myself = Some(u);
    }
}

/// `b` is `a` with the look-alike replacement undone in the bio and the
/// status description.
pub open spec fn unsanitized_user(a: User, b: User) -> bool {
    &&& b.bio@ == unsanitized(a.bio@)
    &&& b.statusDescription@ == unsanitized(a.statusDescription@)
    &&& b == User { bio: b.bio, statusDescription: b.statusDescription, ..a }
}

/// Each user of `b` is the user of `a` at the same place, with the
/// look-alike replacement undone.
pub open spec fn unsanitized_users(a: Seq<User>, b: Seq<User>) -> bool {
    a.len() == b.len() && forall|i: int| 0 <= i < a.len() ==> unsanitized_user(#[trigger] a[i], b[i])
}

/// Undoes the look-alike replacement for every user of `v`.
pub fn unsanitize_all(v: &mut Vec<User>, un: &Unsanitizer)
    ensures
        unsanitized_users(old(v)@, final(v)@),
{
    let ghost orig = v@;
    let mut done: Vec<User> = Vec::new();
    let ghost mut k: int = 0;
    while v.len() > 0
        invariant
            0 <= k <= orig.len(),
            v@ == orig.skip(k),
            unsanitized_users(orig.take(k), done@),
        decreases v.len(),
    {
        let mut u = v.remove(0);
        proof {
            assert(u == orig[k]);
            assert(orig.skip(k).remove(0) == orig.skip(k + 1));
        }
        u.unsanitize(un);
        done.push(u);
        proof {
            assert forall|i: int| 0 <= i < k + 1 implies unsanitized_user(
                #[trigger] orig.take(k + 1)[i],
                done@[i],
            ) by {
                if i < k {
                    assert(orig.take(k + 1)[i] == orig.take(k)[i]);
                }
            }
            k = k + 1;
        }
    }
    proof {
        assert(orig.take(k) == orig);
    }
    *v = done;
}

/// The users of `s` that are in a world, in their order.
pub open spec fn in_world_of(s: Seq<User>) -> Seq<User>
    decreases s.len(),
{
    if s.len() == 0 {
        Seq::empty()
    } else {
        in_world_of(s.drop_last()) + if is_in_world(s.last()) {
            seq![s.last()]
        } else {
            Seq::empty()
        }
    }
}

/// The online list built from the friends fetched when the stream starts:
/// the friends in a world, ordered by status, with the look-alike
/// replacement undone.
pub fn online_at_start(friends: Vec<User>, un: &Unsanitizer) -> (r: Vec<User>)
    ensures
        unsanitized_users(sorted_by_status(in_world_of(friends@)), r@),
{
    let ghost orig = friends@;
    let mut rest = friends;
    let mut kept: Vec<User> = Vec::new();
    let ghost mut k: int = 0;
    while rest.len() > 0
        invariant
            0 <= k <= orig.len(),
            rest@ == orig.skip(k),
            kept@ == in_world_of(orig.take(k)),
        decreases rest.len(),
    {
        let u = rest.remove(0);
        proof {
            assert(u == orig[k]);
            assert(orig.take(k + 1).drop_last() == orig.take(k));
            assert(orig.take(k + 1).last() == orig[k]);
            assert(orig.skip(k).remove(0) == orig.skip(k + 1));
        }
        if in_world(&u) {
            kept.push(u);
        }
        proof {
            k = k + 1;
        }
    }
    proof {
        assert(orig.take(k) == orig);
    }
    sort_by_status(&mut kept);
    unsanitize_all(&mut kept, un);
    kept
}

} // verus!
