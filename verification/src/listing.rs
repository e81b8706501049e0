use vstd::prelude::*;

use crate::text::is_text;
use crate::user::{same_user, User};

verus! {

/// `a` and `b` hold the same users in the same order.
pub open spec fn same_users(a: Seq<User>, b: Seq<User>) -> bool {
    a.len() == b.len() && forall|i: int| 0 <= i < a.len() ==> same_user(#[trigger] a[i], b[i])
}

/// The friend is in a world that others may see: at a location other than
/// `private`.
pub open spec fn is_public(u: User) -> bool {
    u.location is Some && u.location->0@ != "private"@
}

/// The friends of `s` in a public place, in their order.
pub open spec fn publics(s: Seq<User>) -> Seq<User>
    decreases s.len(),
{
    if s.len() == 0 {
        Seq::empty()
    } else {
        publics(s.drop_last()) + if is_public(s.last()) {
            seq![s.last()]
        } else {
            Seq::empty()
        }
    }
}

/// The friends of `s` in no public place, in their order.
pub open spec fn privates(s: Seq<User>) -> Seq<User>
    decreases s.len(),
{
    if s.len() == 0 {
        Seq::empty()
    } else {
        privates(s.drop_last()) + if !is_public(s.last()) {
            seq![s.last()]
        } else {
            Seq::empty()
        }
    }
}

/// The online friends split by where they are, as `/friends` answers.
pub struct ResFriend {
    pub public: Vec<User>,
    pub private: Vec<User>,
}

proof fn lemma_same_users_push(a: Seq<User>, b: Seq<User>, x: User, y: User)
    requires
        same_users(a, b),
        same_user(x, y),
    ensures
        same_users(a.push(x), b.push(y)),
{
    assert forall|i: int| 0 <= i < a.push(x).len() implies same_user(
        #[trigger] a.push(x)[i],
        b.push(y)[i],
    ) by {
        if i < a.len() {
            assert(a.push(x)[i] == a[i] && b.push(y)[i] == b[i]);
        }
    }
}

/// Splits the online friends into those in public places and the others,
/// each part in the order of `online`.
pub fn split_by_privacy(online: &Vec<User>) -> (r: ResFriend)
    ensures
        same_users(r.public@, publics(online@)),
        same_users(r.private@, privates(online@)),
{
    let mut public: Vec<User> = Vec::new();
    let mut private: Vec<User> = Vec::new();
    let mut i: usize = 0;
    while i < online.len()
        invariant
            0 <= i <= online.len(),
            same_users(public@, publics(online@.take(i as int))),
            same_users(private@, privates(online@.take(i as int))),
        decreases online.len() - i,
    {
        let u = &online[i];
        let ghost t = online@.take(i + 1);
        proof {
            assert(t.drop_last() == online@.take(i as int));
            assert(t.last() == online@[i as int]);
        }
        let is_pub = match &u.location {
            Some(l) => !is_text(l.as_str(), "private"),
            None => false,
        };
        if is_pub {
            let c = u.copy();
            proof {
                lemma_same_users_push(public@, publics(online@.take(i as int)), c, *u);
                assert(publics(t) == publics(online@.take(i as int)).push(*u));
                assert(privates(t) =~= privates(online@.take(i as int)));
            }
            public.push(c);
        } else {
            let c = u.copy();
            proof {
                lemma_same_users_push(private@, privates(online@.take(i as int)), c, *u);
                assert(privates(t) == privates(online@.take(i as int)).push(*u));
                assert(publics(t) =~= publics(online@.take(i as int)));
            }
            private.push(c);
        }
        i = i + 1;
    }
    proof {
        assert(online@.take(i as int) =~= online@);
    }
    ResFriend { public, private }
}

/// The id is one of the favorite friends.
pub open spec fn is_favorite(favorites: Seq<String>, id: Seq<char>) -> bool {
    exists|i: int| 0 <= i < favorites.len() && (#[trigger] favorites[i])@ == id
}

/// The users of `s` that are favorite friends, in their order.
pub open spec fn favorites_in(s: Seq<User>, favorites: Seq<String>) -> Seq<User>
    decreases s.len(),
{
    if s.len() == 0 {
        Seq::empty()
    } else {
        favorites_in(s.drop_last(), favorites) + if is_favorite(favorites, s.last().id@) {
            seq![s.last()]
        } else {
            Seq::empty()
        }
    }
}

/// Whether `id` is one of the favorite friends.
pub fn is_favorite_id(favorites: &Vec<String>, id: &str) -> (r: bool)
    ensures
        r == is_favorite(favorites@, id@),
{
    let mut i: usize = 0;
    while i < favorites.len()
        invariant
            0 <= i <= favorites.len(),
            forall|j: int| 0 <= j < i ==> (#[trigger] favorites@[j])@ != id@,
        decreases favorites.len() - i,
    {
        if is_text(favorites[i].as_str(), id) {
            return true;
        }
        i = i + 1;
    }
    false
}

/// Keeps only the favorite friends of `v`, in their order.
pub fn retain_favorites(v: &mut Vec<User>, favorites: &Vec<String>)
    ensures
        final(v)@ == favorites_in(old(v)@, favorites@),
{
    let ghost orig = v@;
    let mut kept: Vec<User> = Vec::new();
    let ghost mut k: int = 0;
    while v.len() > 0
        invariant
            0 <= k <= orig.len(),
            v@ == orig.skip(k),
            kept@ == favorites_in(orig.take(k), favorites@),
        decreases v.len(),
    {
        let u = v.remove(0);
        proof {
            assert(u == orig[k]);
            assert(orig.take(k + 1).drop_last() == orig.take(k));
            assert(orig.take(k + 1).last() == orig[k]);
            assert(orig.skip(k).remove(0) == orig.skip(k + 1));
        }
        if is_favorite_id(favorites, u.id.as_str()) {
            kept.push(u);
        }
        proof {
            k = k + 1;
        }
    }
    proof {
        assert(orig.take(k) == orig);
    }
    *v = kept;
}

impl ResFriend {
    /// Keeps only the favorite friends in both parts (`/friends/filtered`).
    pub fn keep_favorites(&mut self, favorites: &Vec<String>)
        ensures
            final(self).public@ == favorites_in(old(self).public@, favorites@),
            final(self).private@ == favorites_in(old(self).private@, favorites@),
    {
        retain_favorites(&mut self.public, favorites);
        retain_favorites(&mut self.private, favorites);
    }
}

} // verus!
