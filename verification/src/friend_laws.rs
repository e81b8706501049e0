use vstd::prelude::*;

use crate::friends::{
    after_active, after_add, after_delete, after_location, after_offline, contains_id,
    first_with_id, gone_offline, lemma_first_exists, list_for_new_friend, list_of, without_first_id,
    remove_in_order, unsanitized_user, FriendLists, ListKind,
};
use crate::ordering::{
    is_sorted_by_status, lemma_sorted_is_permutation, lemma_sorted_is_sorted, sorted_by_status,
    with_status,
};
use crate::status::{rank, Status};
use crate::unsanitize::unsanitized;
use crate::user::User;

verus! {

/// How many users of `s` have the id `id`.
pub open spec fn count_id(s: Seq<User>, id: Seq<char>) -> nat
    decreases s.len(),
{
    if s.len() == 0 {
        0
    } else {
        count_id(s.drop_last(), id) + if s.last().id@ == id {
            1nat
        } else {
            0nat
        }
    }
}

/// How many entries of the three friend lists have the id `id`.
pub open spec fn total_count(f: FriendLists, id: Seq<char>) -> nat {
    count_id(f.online, id) + count_id(f.web, id) + count_id(f.offline, id)
}

/// No friend stands twice in the lists, in one list or in two.
pub open spec fn ids_unique(f: FriendLists) -> bool {
    forall|id: Seq<char>| #[trigger] total_count(f, id) <= 1
}

/// The online and the web list are each ordered by status.
pub open spec fn lists_ordered(f: FriendLists) -> bool {
    is_sorted_by_status(f.online) && is_sorted_by_status(f.web)
}

spec fn one_if(b: bool) -> nat {
    if b {
        1
    } else {
        0
    }
}

proof fn lemma_count_concat(a: Seq<User>, b: Seq<User>, id: Seq<char>)
    ensures
        count_id(a + b, id) == count_id(a, id) + count_id(b, id),
    decreases b.len(),
{
    if b.len() == 0 {
        assert(a + b =~= a);
    } else {
        lemma_count_concat(a, b.drop_last(), id);
        assert((a + b).drop_last() =~= a + b.drop_last());
        assert((a + b).last() == b.last());
    }
}

proof fn lemma_count_single(u: User, id: Seq<char>)
    ensures
        count_id(seq![u], id) == one_if(u.id@ == id),
{
    assert(seq![u].drop_last() =~= Seq::<User>::empty());
    assert(count_id(Seq::<User>::empty(), id) == 0);
    assert(seq![u].last() == u);
}

proof fn lemma_count_split(s: Seq<User>, i: int, id: Seq<char>)
    requires
        0 <= i < s.len(),
    ensures
        count_id(s, id) == count_id(s.take(i), id) + one_if(s[i].id@ == id) + count_id(
            s.skip(i + 1),
            id,
        ),
{
    assert(s =~= s.take(i) + seq![s[i]] + s.skip(i + 1));
    lemma_count_concat(s.take(i) + seq![s[i]], s.skip(i + 1), id);
    lemma_count_concat(s.take(i), seq![s[i]], id);
    lemma_count_single(s[i], id);
}

proof fn lemma_count_remove(s: Seq<User>, i: int, id: Seq<char>)
    requires
        0 <= i < s.len(),
    ensures
        count_id(s.remove(i), id) + one_if(s[i].id@ == id) == count_id(s, id),
{
    lemma_count_split(s, i, id);
    assert(s.remove(i) =~= s.take(i) + s.skip(i + 1));
    lemma_count_concat(s.take(i), s.skip(i + 1), id);
}

proof fn lemma_count_update(s: Seq<User>, i: int, u: User, id: Seq<char>)
    requires
        0 <= i < s.len(),
    ensures
        count_id(s.update(i, u), id) + one_if(s[i].id@ == id) == count_id(s, id) + one_if(
            u.id@ == id,
        ),
{
    lemma_count_split(s, i, id);
    lemma_count_split(s.update(i, u), i, id);
    assert(s.update(i, u).take(i) =~= s.take(i));
    assert(s.update(i, u).skip(i + 1) =~= s.skip(i + 1));
}

proof fn lemma_count_push(s: Seq<User>, u: User, id: Seq<char>)
    ensures
        count_id(s.push(u), id) == count_id(s, id) + one_if(u.id@ == id),
{
    assert(s.push(u).drop_last() =~= s);
}

proof fn lemma_count_contains(s: Seq<User>, id: Seq<char>)
    ensures
        contains_id(s, id) <==> count_id(s, id) > 0,
    decreases s.len(),
{
    if s.len() > 0 {
        let p = s.drop_last();
        lemma_count_contains(p, id);
        if contains_id(p, id) {
            let w = choose|i: int| 0 <= i < p.len() && (#[trigger] p[i]).id@ == id;
            assert(s[w] == p[w]);
        }
        if contains_id(s, id) && s.last().id@ != id {
            let w = choose|i: int| 0 <= i < s.len() && (#[trigger] s[i]).id@ == id;
            assert(p[w] == s[w]);
        }
        if s.last().id@ == id {
            assert(s[s.len() - 1].id@ == id);
        }
    }
}

proof fn lemma_count_without(s: Seq<User>, x: Seq<char>, id: Seq<char>)
    ensures
        count_id(without_first_id(s, x), id) + one_if(contains_id(s, x) && x == id) == count_id(
            s,
            id,
        ),
{
    if contains_id(s, x) {
        lemma_first_exists(s, x);
        lemma_count_remove(s, first_with_id(s, x), id);
    }
}

proof fn lemma_count_with_status(s: Seq<User>, id: Seq<char>)
    ensures
        count_id(with_status(s, Status::JoinMe), id) + count_id(with_status(s, Status::Active), id)
            + count_id(with_status(s, Status::AskMe), id) + count_id(
            with_status(s, Status::Busy),
            id,
        ) + count_id(with_status(s, Status::Offline), id) == count_id(s, id),
    decreases s.len(),
{
    if s.len() > 0 {
        let p = s.drop_last();
        let x = s.last();
        lemma_count_with_status(p, id);
        lemma_count_single(x, id);
        lemma_count_concat(with_status(p, x.status), seq![x], id);
        assert(count_id(Seq::<User>::empty(), id) == 0);
        lemma_count_concat(with_status(p, Status::JoinMe), Seq::<User>::empty(), id);
        lemma_count_concat(with_status(p, Status::Active), Seq::<User>::empty(), id);
        lemma_count_concat(with_status(p, Status::AskMe), Seq::<User>::empty(), id);
        lemma_count_concat(with_status(p, Status::Busy), Seq::<User>::empty(), id);
        lemma_count_concat(with_status(p, Status::Offline), Seq::<User>::empty(), id);
    }
}

proof fn lemma_count_sorted(s: Seq<User>, id: Seq<char>)
    ensures
        count_id(sorted_by_status(s), id) == count_id(s, id),
{
    let b0 = with_status(s, Status::JoinMe);
    let b1 = with_status(s, Status::Active);
    let b2 = with_status(s, Status::AskMe);
    let b3 = with_status(s, Status::Busy);
    let b4 = with_status(s, Status::Offline);
    lemma_count_concat(b0, b1, id);
    lemma_count_concat(b0 + b1, b2, id);
    lemma_count_concat(b0 + b1 + b2, b3, id);
    lemma_count_concat(b0 + b1 + b2 + b3, b4, id);
    lemma_count_with_status(s, id);
}

proof fn lemma_remove_keeps_sorted(s: Seq<User>, i: int)
    requires
        is_sorted_by_status(s),
        0 <= i < s.len(),
    ensures
        is_sorted_by_status(s.remove(i)),
{
    let t = s.remove(i);
    assert forall|a: int, b: int| 0 <= a <= b < t.len() implies rank(#[trigger] t[a].status) <= rank(
        #[trigger] t[b].status,
    ) by {
        let a2 = if a < i {
            a
        } else {
            a + 1
        };
        let b2 = if b < i {
            b
        } else {
            b + 1
        };
        assert(t[a] == s[a2] && t[b] == s[b2]);
    }
}

proof fn lemma_without_keeps_sorted(s: Seq<User>, id: Seq<char>)
    requires
        is_sorted_by_status(s),
    ensures
        is_sorted_by_status(without_first_id(s, id)),
{
    if contains_id(s, id) {
        lemma_first_exists(s, id);
        lemma_remove_keeps_sorted(s, first_with_id(s, id));
    }
}

proof fn lemma_update_same_status_keeps_sorted(s: Seq<User>, i: int, u: User)
    requires
        is_sorted_by_status(s),
        0 <= i < s.len(),
        s[i].status == u.status,
    ensures
        is_sorted_by_status(s.update(i, u)),
{
    let t = s.update(i, u);
    assert forall|a: int, b: int| 0 <= a <= b < t.len() implies rank(#[trigger] t[a].status) <= rank(
        #[trigger] t[b].status,
    ) by {
        assert(t[a].status == s[a].status);
        assert(t[b].status == s[b].status);
    }
}

/// What removing in a given order does to each list: it is left as it was or
/// loses its first entry of the id.
proof fn lemma_remove_in_order_lists(f: FriendLists, id: Seq<char>, order: Seq<ListKind>)
    ensures
        ({
            let g = remove_in_order(f, id, order);
            &&& g.myself == f.myself
            &&& g.online == f.online || g.online == without_first_id(f.online, id)
            &&& g.web == f.web || g.web == without_first_id(f.web, id)
            &&& g.offline == f.offline || g.offline == without_first_id(f.offline, id)
        }),
    decreases order.len(),
{
    if order.len() > 0 && !contains_id(list_of(f, order[0]), id) {
        lemma_remove_in_order_lists(f, id, order.drop_first());
    }
}

/// Removing in an order that names every list holding the id takes it out of
/// the lists once, where they hold it.
proof fn lemma_remove_in_order_count(
    f: FriendLists,
    id: Seq<char>,
    order: Seq<ListKind>,
    other: Seq<char>,
)
    requires
        forall|x: ListKind| !order.contains(x) ==> !contains_id(#[trigger] list_of(f, x), id),
    ensures
        total_count(remove_in_order(f, id, order), other) + one_if(total_count(f, id) > 0 && id == other)
            == total_count(f, other),
    decreases order.len(),
{
    lemma_count_contains(f.online, id);
    lemma_count_contains(f.web, id);
    lemma_count_contains(f.offline, id);
    if order.len() == 0 {
        assert(!order.contains(ListKind::Online));
        assert(!order.contains(ListKind::Web));
        assert(!order.contains(ListKind::Offline));
        assert(!contains_id(list_of(f, ListKind::Online), id));
        assert(!contains_id(list_of(f, ListKind::Web), id));
        assert(!contains_id(list_of(f, ListKind::Offline), id));
    } else {
        let k = order[0];
        if contains_id(list_of(f, k), id) {
            match k {
                ListKind::Online => lemma_count_without(f.online, id, other),
                ListKind::Web => lemma_count_without(f.web, id, other),
                ListKind::Offline => lemma_count_without(f.offline, id, other),
            }
        } else {
            let rest = order.drop_first();
            assert forall|x: ListKind| !rest.contains(x) implies !contains_id(
                #[trigger] list_of(f, x),
                id,
            ) by {
                if x != k && order.contains(x) {
                    let j = choose|j: int| 0 <= j < order.len() && order[j] == x;
                    assert(j != 0);
                    assert(rest[j - 1] == x);
                }
            }
            lemma_remove_in_order_count(f, id, rest, other);
        }
    }
}

proof fn lemma_location_counts(f: FriendLists, u: User, other: Seq<char>)
    ensures
        !contains_id(f.online, u.id@) ==> total_count(after_location(f, u), other) + one_if(
            total_count(f, u.id@) > 0 && u.id@ == other,
        ) == total_count(f, other) + one_if(u.id@ == other),
        contains_id(f.online, u.id@) ==> total_count(after_location(f, u), other) == total_count(
            f,
            other,
        ),
{
    let id = u.id@;
    if contains_id(f.online, id) {
        lemma_first_exists(f.online, id);
        let i = first_with_id(f.online, id);
        let updated = f.online.update(i, u);
        lemma_count_update(f.online, i, u, other);
        lemma_count_sorted(updated, other);
    } else {
        let order = seq![ListKind::Offline, ListKind::Web];
        assert(order.contains(ListKind::Offline)) by {
            assert(order[0] == ListKind::Offline);
        }
        assert(order.contains(ListKind::Web)) by {
            assert(order[1] == ListKind::Web);
        }
        assert forall|x: ListKind| !order.contains(x) implies !contains_id(
            #[trigger] list_of(f, x),
            id,
        ) by {}
        lemma_remove_in_order_count(f, id, order, other);
        let g = remove_in_order(f, id, order);
        lemma_count_push(g.online, u, other);
        lemma_count_sorted(g.online.push(u), other);
    }
}

proof fn lemma_active_counts(f: FriendLists, u: User, other: Seq<char>)
    ensures
        total_count(after_active(f, u), other) + one_if(total_count(f, u.id@) > 0 && u.id@ == other)
            == total_count(f, other) + one_if(u.id@ == other),
{
    let id = u.id@;
    let order = seq![ListKind::Offline, ListKind::Online, ListKind::Web];
    assert(order[0] == ListKind::Offline && order[1] == ListKind::Online && order[2]
        == ListKind::Web);
    assert forall|x: ListKind| !order.contains(x) implies !contains_id(
        #[trigger] list_of(f, x),
        id,
    ) by {
        match x {
            ListKind::Offline => assert(order.contains(x)),
            ListKind::Online => assert(order.contains(order[1])),
            ListKind::Web => assert(order.contains(order[2])),
        }
    }
    lemma_remove_in_order_count(f, id, order, other);
    let g = remove_in_order(f, id, order);
    lemma_count_push(g.web, u, other);
    lemma_count_sorted(g.web.push(u), other);
}

proof fn lemma_delete_counts(f: FriendLists, id: Seq<char>, other: Seq<char>)
    ensures
        total_count(after_delete(f, id), other) + one_if(total_count(f, id) > 0 && id == other)
            == total_count(f, other),
{
    let order = seq![ListKind::Offline, ListKind::Web, ListKind::Online];
    assert(order[0] == ListKind::Offline && order[1] == ListKind::Web && order[2]
        == ListKind::Online);
    assert forall|x: ListKind| !order.contains(x) implies !contains_id(
        #[trigger] list_of(f, x),
        id,
    ) by {
        match x {
            ListKind::Offline => assert(order.contains(x)),
            ListKind::Web => assert(order.contains(order[1])),
            ListKind::Online => assert(order.contains(order[2])),
        }
    }
    lemma_remove_in_order_count(f, id, order, other);
}

proof fn lemma_offline_counts(f: FriendLists, id: Seq<char>, other: Seq<char>)
    ensures
        total_count(after_offline(f, id), other) == total_count(f, other),
{
    if contains_id(f.online, id) {
        lemma_first_exists(f.online, id);
        let u = f.online[first_with_id(f.online, id)];
        lemma_count_without(f.online, id, other);
        lemma_count_push(f.offline, gone_offline(u), other);
    } else if contains_id(f.web, id) {
        lemma_first_exists(f.web, id);
        let u = f.web[first_with_id(f.web, id)];
        lemma_count_without(f.web, id, other);
        lemma_count_push(f.offline, gone_offline(u), other);
    }
}

/// Each event of the stream keeps the online and the web list ordered by
/// status: where both lists are ordered before the event, they are ordered
/// after it.
pub proof fn law_events_keep_lists_ordered(
    f: FriendLists,
    u: User,
    id: Seq<char>,
    active: bool,
)
    requires
        lists_ordered(f),
    ensures
        lists_ordered(after_location(f, u)),
        lists_ordered(after_active(f, u)),
        lists_ordered(after_add(f, u, active)),
        lists_ordered(after_delete(f, id)),
        lists_ordered(after_offline(f, id)),
{
    // a friend seen at a location
    if contains_id(f.online, u.id@) {
        lemma_first_exists(f.online, u.id@);
        let i = first_with_id(f.online, u.id@);
        if f.online[i].status != u.status {
            lemma_sorted_is_sorted(f.online.update(i, u));
        } else {
            lemma_update_same_status_keeps_sorted(f.online, i, u);
        }
    } else {
        let g = remove_in_order(f, u.id@, seq![ListKind::Offline, ListKind::Web]);
        lemma_remove_in_order_lists(f, u.id@, seq![ListKind::Offline, ListKind::Web]);
        lemma_without_keeps_sorted(f.online, u.id@);
        lemma_without_keeps_sorted(f.web, u.id@);
        lemma_sorted_is_sorted(g.online.push(u));
    }
    // a friend active on the website
    let g = remove_in_order(f, u.id@, seq![ListKind::Offline, ListKind::Online, ListKind::Web]);
    lemma_remove_in_order_lists(f, u.id@, seq![ListKind::Offline, ListKind::Online, ListKind::Web]);
    lemma_without_keeps_sorted(f.online, u.id@);
    lemma_sorted_is_sorted(g.web.push(u));
    // a new friend
    lemma_sorted_is_sorted(list_of(f, list_for_new_friend(u, active)).push(u));
    // a friendship ended
    lemma_remove_in_order_lists(f, id, seq![ListKind::Offline, ListKind::Web, ListKind::Online]);
    lemma_without_keeps_sorted(f.online, id);
    lemma_without_keeps_sorted(f.web, id);
}

/// No event of the stream makes a friend stand twice in the lists, but for
/// the addition of a friend that the lists already hold.
pub proof fn law_events_keep_ids_unique(f: FriendLists, u: User, id: Seq<char>, active: bool)
    requires
        ids_unique(f),
    ensures
        ids_unique(after_location(f, u)),
        ids_unique(after_active(f, u)),
        ids_unique(after_delete(f, id)),
        ids_unique(after_offline(f, id)),
        total_count(f, u.id@) == 0 ==> ids_unique(after_add(f, u, active)),
{
    assert forall|other: Seq<char>| #[trigger] total_count(after_location(f, u), other) <= 1 by {
        lemma_location_counts(f, u, other);
        assert(total_count(f, other) <= 1);
        assert(total_count(f, u.id@) <= 1);
        lemma_count_contains(f.online, u.id@);
    }
    assert forall|other: Seq<char>| #[trigger] total_count(after_active(f, u), other) <= 1 by {
        lemma_active_counts(f, u, other);
        assert(total_count(f, other) <= 1);
        assert(total_count(f, u.id@) <= 1);
    }
    assert forall|other: Seq<char>| #[trigger] total_count(after_delete(f, id), other) <= 1 by {
        lemma_delete_counts(f, id, other);
        assert(total_count(f, other) <= 1);
    }
    assert forall|other: Seq<char>| #[trigger] total_count(after_offline(f, id), other) <= 1 by {
        lemma_offline_counts(f, id, other);
        assert(total_count(f, other) <= 1);
    }
    if total_count(f, u.id@) == 0 {
        assert forall|other: Seq<char>| #[trigger] total_count(after_add(f, u, active), other)
            <= 1 by {
            let k = list_for_new_friend(u, active);
            lemma_count_push(list_of(f, k), u, other);
            lemma_count_sorted(list_of(f, k).push(u), other);
            assert(total_count(f, other) <= 1);
        }
    }
}

/// Where the friend stands at most once in the lists, a friend whose
/// friendship ended is in no list afterwards.
pub proof fn law_delete_removes_friend(f: FriendLists, id: Seq<char>)
    requires
        total_count(f, id) <= 1,
    ensures
        total_count(after_delete(f, id), id) == 0,
        !contains_id(after_delete(f, id).online, id),
        !contains_id(after_delete(f, id).web, id),
        !contains_id(after_delete(f, id).offline, id),
{
    lemma_delete_counts(f, id, id);
    let g = after_delete(f, id);
    lemma_count_contains(g.online, id);
    lemma_count_contains(g.web, id);
    lemma_count_contains(g.offline, id);
}

/// A friend that goes offline from the online or the web list ends up last
/// in the offline list, with the offline status and no location; no friend
/// is gained or lost.
pub proof fn law_offline_moves_friend(f: FriendLists, id: Seq<char>)
    requires
        contains_id(f.online, id) || contains_id(f.web, id),
    ensures
        after_offline(f, id).offline.len() == f.offline.len() + 1,
        after_offline(f, id).offline.last().id@ == id,
        after_offline(f, id).offline.last().status == Status::Offline,
        after_offline(f, id).offline.last().location is None,
        forall|other: Seq<char>| #[trigger] total_count(after_offline(f, id), other) == total_count(
            f,
            other,
        ),
{
    if contains_id(f.online, id) {
        lemma_first_exists(f.online, id);
    } else {
        lemma_first_exists(f.web, id);
    }
    assert forall|other: Seq<char>| #[trigger] total_count(after_offline(f, id), other)
        == total_count(f, other) by {
        lemma_offline_counts(f, id, other);
    }
}

proof fn lemma_sorted_contains(s: Seq<User>, x: User)
    requires
        s.contains(x),
    ensures
        sorted_by_status(s).contains(x),
{
    broadcast use vstd::seq_lib::group_to_multiset_ensures;

    lemma_sorted_is_permutation(s);
    assert(s.to_multiset().count(x) > 0);
    assert(sorted_by_status(s).to_multiset().count(x) > 0);
}

/// After a friend was seen at a location, where that friend stood at most
/// once in the lists and the online list was ordered by status: the friend stands exactly once, in the
/// online list, as the event gives it; the online list is ordered by status;
/// and every other friend stays in the list it was in.
pub proof fn law_location_places_friend_online(f: FriendLists, u: User)
    requires
        total_count(f, u.id@) <= 1,
        is_sorted_by_status(f.online),
    ensures
        count_id(after_location(f, u).online, u.id@) == 1,
        count_id(after_location(f, u).web, u.id@) == 0,
        count_id(after_location(f, u).offline, u.id@) == 0,
        after_location(f, u).online.contains(u),
        is_sorted_by_status(after_location(f, u).online),
        forall|other: Seq<char>|
            other != u.id@ ==> (#[trigger] count_id(after_location(f, u).online, other))
                == count_id(f.online, other),
        forall|other: Seq<char>|
            other != u.id@ ==> (#[trigger] count_id(after_location(f, u).web, other)) == count_id(
                f.web,
                other,
            ),
        forall|other: Seq<char>|
            other != u.id@ ==> (#[trigger] count_id(after_location(f, u).offline, other))
                == count_id(f.offline, other),
{
    let id = u.id@;
    let g = after_location(f, u);
    lemma_count_contains(f.online, id);
    if contains_id(f.online, id) {
        lemma_first_exists(f.online, id);
        let i = first_with_id(f.online, id);
        let updated = f.online.update(i, u);
        assert(updated[i] == u);
        assert(updated.contains(u));
        if f.online[i].status != u.status {
            lemma_sorted_is_sorted(updated);
            lemma_sorted_contains(updated, u);
        } else {
            lemma_update_same_status_keeps_sorted(f.online, i, u);
        }
        lemma_count_update(f.online, i, u, id);
        lemma_count_sorted(updated, id);
        assert forall|other: Seq<char>| other != id implies (#[trigger] count_id(g.online, other))
            == count_id(f.online, other) by {
            lemma_count_update(f.online, i, u, other);
            lemma_count_sorted(updated, other);
        }
    } else {
        let order = seq![ListKind::Offline, ListKind::Web];
        assert(order[0] == ListKind::Offline && order[1] == ListKind::Web);
        assert forall|x: ListKind| !order.contains(x) implies !contains_id(
            #[trigger] list_of(f, x),
            id,
        ) by {
            match x {
                ListKind::Offline => assert(order.contains(order[0])),
                ListKind::Web => assert(order.contains(order[1])),
                ListKind::Online => {},
            }
        }
        let h = remove_in_order(f, id, order);
        lemma_remove_in_order_lists(f, id, order);
        lemma_remove_in_order_count(f, id, order, id);
        assert(h.online == f.online);
        assert(g.web == h.web && g.offline == h.offline);
        assert(g.online == sorted_by_status(h.online.push(u)));
        lemma_count_push(h.online, u, id);
        lemma_count_sorted(h.online.push(u), id);
        lemma_sorted_is_sorted(h.online.push(u));
        assert(h.online.push(u).contains(u)) by {
            assert(h.online.push(u)[h.online.len() as int] == u);
        }
        lemma_sorted_contains(h.online.push(u), u);
        assert forall|other: Seq<char>| other != id implies (#[trigger] count_id(g.online, other))
            == count_id(f.online, other) by {
            lemma_count_push(h.online, u, other);
            lemma_count_sorted(h.online.push(u), other);
        }
        assert forall|other: Seq<char>| other != id implies (#[trigger] count_id(g.web, other))
            == count_id(f.web, other) by {
            lemma_count_without(f.web, id, other);
        }
        assert forall|other: Seq<char>| other != id implies (#[trigger] count_id(g.offline, other))
            == count_id(f.offline, other) by {
            lemma_count_without(f.offline, id, other);
        }
    }
}

/// A location event as the stream gives it: where the friend stood at most
/// once in the lists and the online list was ordered by status, the friend
/// placed (`v`, the event's user with the look-alike replacement undone, as
/// `Friends::on_location_event` places it) stands exactly once, in the online
/// list; the online list is ordered by status; and every other friend stays
/// in the list it was in.
pub proof fn law_location_event_places_friend_once(f: FriendLists, u: User, v: User)
    requires
        total_count(f, u.id@) <= 1,
        is_sorted_by_status(f.online),
        unsanitized_user(u, v),
    ensures
        count_id(after_location(f, v).online, u.id@) == 1,
        count_id(after_location(f, v).web, u.id@) == 0,
        count_id(after_location(f, v).offline, u.id@) == 0,
        after_location(f, v).online.contains(v),
        v.bio@ == unsanitized(u.bio@),
        v.statusDescription@ == unsanitized(u.statusDescription@),
        is_sorted_by_status(after_location(f, v).online),
        forall|other: Seq<char>|
            other != u.id@ ==> (#[trigger] count_id(after_location(f, v).online, other))
                == count_id(f.online, other),
        forall|other: Seq<char>|
            other != u.id@ ==> (#[trigger] count_id(after_location(f, v).web, other)) == count_id(
                f.web,
                other,
            ),
        forall|other: Seq<char>|
            other != u.id@ ==> (#[trigger] count_id(after_location(f, v).offline, other))
                == count_id(f.offline, other),
{
    assert(v.id == u.id);
    law_location_places_friend_online(f, v);
}

/// Where a new friend goes (`friend-add`). A friend somewhere in a world (a
/// location other than `offline`) that is busy or asks to be asked, and that
/// the account's active friends include, joins the web list; any other friend
/// in a world joins the online list; a friend with no location, or the
/// location `offline`, joins the offline list. The list it joins gains exactly
/// that friend and stays ordered by status; the other lists are untouched.
pub proof fn law_add_places_new_friend(f: FriendLists, u: User, active: bool)
    ensures
        ({
            let g = after_add(f, u, active);
            let in_world = u.location matches Some(l) && l@ != "offline"@;
            let on_web = in_world && (u.status == Status::AskMe || u.status == Status::Busy)
                && active;
            &&& on_web ==> g.web.to_multiset() == f.web.to_multiset().insert(u) && g.online
                == f.online && g.offline == f.offline && is_sorted_by_status(g.web)
            &&& in_world && !on_web ==> g.online.to_multiset() == f.online.to_multiset().insert(u)
                && g.web == f.web && g.offline == f.offline && is_sorted_by_status(g.online)
            &&& !in_world ==> g.offline.to_multiset() == f.offline.to_multiset().insert(u) && g.online
                == f.online && g.web == f.web && is_sorted_by_status(g.offline)
        }),
{
    broadcast use vstd::seq_lib::group_to_multiset_ensures;

    let k = list_for_new_friend(u, active);
    let s = list_of(f, k).push(u);
    lemma_sorted_is_permutation(s);
    lemma_sorted_is_sorted(s);
}

} // verus!
