use vstd::prelude::*;

use crate::text::is_text;
use crate::unsanitize::{unsanitized, Unsanitizer};
use crate::user::User;

verus! {

/// The picture shown for a user: its icon, else its profile picture, else the
/// thumbnail of its avatar.
pub open spec fn icon_of(u: User) -> Seq<char> {
    if u.userIcon@.len() > 0 {
        u.userIcon@
    } else if u.profilePicOverride@.len() > 0 {
        u.profilePicOverride@
    } else {
        u.currentAvatarThumbnailImageUrl@
    }
}

/// The user is in the instance `instance`.
pub open spec fn is_in_instance(u: User, instance: Seq<char>) -> bool {
    u.location is Some && u.location->0@ == instance
}

/// The picture and the name of each friend of `s` in the instance, in the
/// order of `s`.
pub open spec fn members_at(s: Seq<User>, instance: Seq<char>) -> Seq<(Seq<char>, Seq<char>)>
    decreases s.len(),
{
    if s.len() == 0 {
        Seq::empty()
    } else {
        members_at(s.drop_last(), instance) + if is_in_instance(s.last(), instance) {
            seq![(icon_of(s.last()), s.last().displayName@)]
        } else {
            Seq::empty()
        }
    }
}

/// The views of a list of pairs of texts.
pub open spec fn pair_texts(s: Seq<(String, String)>) -> Seq<(Seq<char>, Seq<char>)> {
    s.map_values(|p: (String, String)| (p.0@, p.1@))
}

/// The picture shown for a user.
pub fn icon(u: &User) -> (r: String)
    ensures
        r@ == icon_of(*u),
{
    if !u.userIcon.as_str().is_empty() {
        u.userIcon.clone()
    } else if !u.profilePicOverride.as_str().is_empty() {
        u.profilePicOverride.clone()
    } else {
        u.currentAvatarThumbnailImageUrl.clone()
    }
}

/// The picture and the name of each friend in the instance `instance_id`, in
/// the order of `friends`.
pub fn instance_members(friends: &Vec<User>, instance_id: &str) -> (r: Vec<(String, String)>)
    ensures
        pair_texts(r@) == members_at(friends@, instance_id@),
{
    let mut r: Vec<(String, String)> = Vec::new();
    let mut i: usize = 0;
    while i < friends.len()
        invariant
            0 <= i <= friends.len(),
            pair_texts(r@) == members_at(friends@.take(i as int), instance_id@),
        decreases friends.len() - i,
    {
        let u = &friends[i];
        let ghost t = friends@.take(i + 1);
        proof {
            assert(t.drop_last() == friends@.take(i as int));
            assert(t.last() == friends@[i as int]);
        }
        let here = match &u.location {
            Some(l) => is_text(l.as_str(), instance_id),
            None => false,
        };
        if here {
            r.push((icon(u), u.displayName.clone()));
            proof {
                assert(pair_texts(r@) =~= pair_texts(r@.drop_last()).push(
                    (icon_of(*u), u.displayName@),
                ));
            }
        } else {
            proof {
                assert(members_at(t, instance_id@) =~= members_at(
                    friends@.take(i as int),
                    instance_id@,
                ));
            }
        }
        i = i + 1;
    }
    proof {
        assert(friends@.take(i as int) =~= friends@);
    }
    r
}

/// The world of an instance, as the API describes it.
pub struct InstanceWorld {
    pub name: String,
    pub description: String,
    pub thumbnailImageUrl: String,
}

/// An instance as the API describes it.
pub struct InstanceData {
    pub ownerId: Option<String>,
    pub userCount: i32,
    pub world: InstanceWorld,
}

/// An instance as `/instance` answers with it: the instance, its world, and
/// the friends in it (picture and name).
pub struct InstanceResponse {
    pub ownerId: Option<String>,
    pub userCount: i32,
    pub name: String,
    pub description: String,
    pub thumbnailImageUrl: String,
    pub users: Vec<(String, String)>,
}

impl InstanceData {
    /// The answer for this instance with the friends `users` in it; the
    /// world's description loses its look-alike characters.
    pub fn into_res(self, users: Vec<(String, String)>, un: &Unsanitizer) -> (r: InstanceResponse)
        ensures
            r.ownerId == self.ownerId,
            r.userCount == self.userCount,
            r.name == self.world.name,
            r.description@ == unsanitized(self.world.description@),
            r.thumbnailImageUrl == self.world.thumbnailImageUrl,
            r.users == users,
    {
        let description = un.unsanitize(self.world.description.as_str());
        InstanceResponse {
            ownerId: self.ownerId,
            userCount: self.userCount,
            name: self.world.name,
            description,
            thumbnailImageUrl: self.world.thumbnailImageUrl,
            users,
        }
    }
}

/// The members of an instance are exactly the friends whose location is the
/// instance id, the whole text alike, in their order, each as its picture and
/// name: a friend elsewhere, in another instance of the same world too, is
/// never listed.
pub proof fn law_members_are_friends_at_instance(s: Seq<User>, instance: Seq<char>)
    ensures
        members_at(s, instance) == s.filter(
            |u: User| u.location matches Some(l) && l@ == instance,
        ).map_values(|u: User| (icon_of(u), u.displayName@)),
    decreases s.len(),
{
    let pred = |u: User| u.location matches Some(l) && l@ == instance;
    let pic = |u: User| (icon_of(u), u.displayName@);
    reveal(Seq::filter);
    if s.len() == 0 {
        assert(s.filter(pred) =~= Seq::<User>::empty());
        assert(members_at(s, instance) =~= s.filter(pred).map_values(pic));
    } else {
        law_members_are_friends_at_instance(s.drop_last(), instance);
        let rest = s.drop_last().filter(pred);
        if pred(s.last()) {
            assert(s.filter(pred) == rest.push(s.last()));
            assert(rest.push(s.last()).map_values(pic) =~= rest.map_values(pic) + seq![pic(s.last())]);
        } else {
            assert(s.filter(pred) == rest);
            assert(members_at(s, instance) =~= members_at(s.drop_last(), instance));
        }
    }
}

} // verus!
