use vstd::prelude::*;

use crate::status::Status;
use crate::text::is_text;
use crate::user::User;

verus! {

/// A user as the `/user` endpoint answers with it: the user's profile and a
/// rank read from its tags.
pub struct ResUser {
    pub id: String,
    pub bio: String,
    pub bioLinks: Vec<String>,
    pub currentAvatarThumbnailImageUrl: String,
    pub displayName: String,
    pub isFriend: bool,
    pub location: Option<String>,
    pub travelingToLocation: Option<String>,
    pub status: Status,
    pub statusDescription: String,
    pub rank: String,
    pub userIcon: String,
    pub profilePicOverride: String,
}

/// The trust level that a tag names, where it names one.
pub open spec fn trust_level(tag: Seq<char>) -> Option<Seq<char>> {
    if tag == "system_trust_veteran"@ {
        Some("Trusted"@)
    } else if tag == "system_trust_trusted"@ {
        Some("Known"@)
    } else if tag == "system_trust_known"@ {
        Some("User"@)
    } else if tag == "system_trust_basic"@ {
        Some("New User"@)
    } else if tag == "system_troll"@ {
        Some("Troll"@)
    } else {
        None
    }
}

/// The trust level named by the last tag that names one; `Visitor` where no
/// tag does.
pub open spec fn level_of_tags(tags: Seq<String>) -> Seq<char>
    decreases tags.len(),
{
    if tags.len() == 0 {
        "Visitor"@
    } else {
        match trust_level(tags.last()@) {
            Some(level) => level,
            None => level_of_tags(tags.drop_last()),
        }
    }
}

/// Some tag marks a VRC+ supporter.
pub open spec fn is_supporter(tags: Seq<String>) -> bool {
    exists|i: int| 0 <= i < tags.len() && (#[trigger] tags[i])@ == "system_supporter"@
}

/// The rank shown for a user with these tags: its trust level, followed by
/// ` VRC+` for a supporter.
pub open spec fn rank_of_tags(tags: Seq<String>) -> Seq<char> {
    if is_supporter(tags) {
        level_of_tags(tags) + " VRC+"@
    } else {
        level_of_tags(tags)
    }
}

/// The trust level that a tag names, where it names one.
pub fn trust_level_of(tag: &str) -> (r: Option<&'static str>)
    ensures
        match r {
            Some(level) => trust_level(tag@) == Some(level@),
            None => trust_level(tag@) is None,
        },
{
    if is_text(tag, "system_trust_veteran") {
        Some("Trusted")
    } else if is_text(tag, "system_trust_trusted") {
        Some("Known")
    } else if is_text(tag, "system_trust_known") {
        Some("User")
    } else if is_text(tag, "system_trust_basic") {
        Some("New User")
    } else if is_text(tag, "system_troll") {
        Some("Troll")
    } else {
        None
    }
}

/// The rank shown for a user with these tags.
pub fn rank_of(tags: &Vec<String>) -> (r: String)
    ensures
        r@ == rank_of_tags(tags@),
{
    let mut i: usize = tags.len();
    proof {
        assert(tags@.take(i as int) =~= tags@);
    }
    while i > 0
        invariant
            i <= tags.len(),
            level_of_tags(tags@) == level_of_tags(tags@.take(i as int)),
        decreases i,
    {
        proof {
            assert(tags@.take(i as int).drop_last() == tags@.take(i - 1));
            assert(tags@.take(i as int).last() == tags@[i - 1]);
        }
        match trust_level_of(tags[i - 1].as_str()) {
            Some(level) => {
                return if is_supporter_exec(tags) {
                    String::from_str(level).concat(" VRC+")
                } else {
                    String::from_str(level)
                };
            },
            None => {},
        }
        i = i - 1;
    }
    let level = "Visitor";
    proof {
        assert(tags@.take(0) =~= Seq::<String>::empty());
    }
    if is_supporter_exec(tags) {
        String::from_str(level).concat(" VRC+")
    } else {
        String::from_str(level)
    }
}

fn is_supporter_exec(tags: &Vec<String>) -> (r: bool)
    ensures
        r == is_supporter(tags@),
{
    let mut i: usize = 0;
    while i < tags.len()
        invariant
            0 <= i <= tags.len(),
            forall|j: int| 0 <= j < i ==> (#[trigger] tags@[j])@ != "system_supporter"@,
        decreases tags.len() - i,
    {
        if is_text(tags[i].as_str(), "system_supporter") {
            return true;
        }
        i = i + 1;
    }
    false
}

impl ResUser {
    /// The answer of the `/user` endpoint for `user`: its profile fields, and
    /// the rank read from its tags.
    pub fn from_user(user: User) -> (r: ResUser)
        ensures
            r.rank@ == rank_of_tags(user.tags@),
            r.id == user.id,
            r.bio == user.bio,
            r.bioLinks == user.bioLinks,
            r.currentAvatarThumbnailImageUrl == user.currentAvatarThumbnailImageUrl,
            r.displayName == user.displayName,
            r.isFriend == user.isFriend,
            r.location == user.location,
            r.travelingToLocation == user.travelingToLocation,
            r.status == user.status,
            r.statusDescription == user.statusDescription,
            r.userIcon == user.userIcon,
            r.profilePicOverride == user.profilePicOverride,
    {
        let rank = rank_of(&user.tags);
        ResUser {
            id: user.id,
            currentAvatarThumbnailImageUrl: user.currentAvatarThumbnailImageUrl,
            bio: user.bio,
            bioLinks: user.bioLinks,
            displayName: user.displayName,
            isFriend: user.isFriend,
            location: user.location,
            travelingToLocation: user.travelingToLocation,
            status: user.status,
            statusDescription: user.statusDescription,
            rank,
            userIcon: user.userIcon,
            profilePicOverride: user.profilePicOverride,
        }
    }
}

/// The trust level read from tags is always one of the six levels.
pub proof fn law_level_is_known(tags: Seq<String>)
    ensures
        ({
            let l = level_of_tags(tags);
            l == "Trusted"@ || l == "Known"@ || l == "User"@ || l == "New User"@ || l == "Troll"@
                || l == "Visitor"@
        }),
    decreases tags.len(),
{
    if tags.len() > 0 {
        law_level_is_known(tags.drop_last());
    }
}

/// The rank carries ` VRC+` exactly when some tag is `system_supporter`:
/// with such a tag it is the trust level followed by ` VRC+`; without one it
/// is the bare trust level, one of the six levels, none of which ends in
/// ` VRC+`.
pub proof fn law_rank_marks_supporters(tags: Seq<String>)
    ensures
        (exists|i: int| 0 <= i < tags.len() && (#[trigger] tags[i])@ == "system_supporter"@)
            ==> rank_of_tags(tags) == level_of_tags(tags) + " VRC+"@,
        !(exists|i: int| 0 <= i < tags.len() && (#[trigger] tags[i])@ == "system_supporter"@)
            ==> rank_of_tags(tags) == level_of_tags(tags),
        !(exists|i: int| 0 <= i < tags.len() && (#[trigger] tags[i])@ == "system_supporter"@)
            ==> ({
            let r = rank_of_tags(tags);
            r == "Trusted"@ || r == "Known"@ || r == "User"@ || r == "New User"@ || r == "Troll"@
                || r == "Visitor"@
        }),
{
    law_level_is_known(tags);
}

} // verus!
