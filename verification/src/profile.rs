use vstd::prelude::*;

use crate::friends::{contains_id, first_with_id, lemma_first_unique, position_of_id};
use crate::status::Status;
use crate::text::is_text;
use crate::user::{same_user, User};

verus! {

/// Steam details of an account (nothing of them is read).
pub struct SteamDetails {}

/// Google details of an account (nothing of them is read).
pub struct GoogleDetails {}

/// Where and how an account is present.
pub struct Presence {
    pub platform: String,
    pub instance: String,
    pub profilePicOverride: String,
    pub currentAvatarTags: String,
    pub avatarThumbnail: String,
    pub status: String,
    pub instanceType: String,
    pub travelingToWorld: String,
    pub travelingToInstance: String,
    pub groups: Vec<String>,
    pub world: String,
    pub displayName: String,
    pub id: String,
    pub debugflag: String,
    pub isRejoining: String,
    pub userIcon: String,
}

/// The logged-in account as the API describes it.
pub struct UserProfile {
    pub id: String,
    pub displayName: String,
    pub userIcon: String,
    pub bio: String,
    pub bioLinks: Vec<String>,
    pub profilePicOverride: String,
    pub statusDescription: String,
    pub username: String,
    pub pastDisplayNames: Vec<String>,
    pub hasEmail: bool,
    pub hasPendingEmail: bool,
    pub obfuscatedEmail: String,
    pub obfuscatedPendingEmail: String,
    pub emailVerified: bool,
    pub hasBirthday: bool,
    pub hideContentFilterSettings: bool,
    pub unsubscribe: bool,
    pub statusHistory: Vec<String>,
    pub statusFirstTime: bool,
    pub friends: Vec<String>,
    pub friendGroupNames: Vec<String>,
    pub queuedInstance: Option<String>,
    pub userLanguage: String,
    pub userLanguageCode: String,
    pub currentAvatarImageUrl: String,
    pub currentAvatarThumbnailImageUrl: String,
    pub currentAvatarTags: Vec<String>,
    pub currentAvatar: String,
    pub currentAvatarAssetUrl: String,
    pub fallbackAvatar: String,
    pub accountDeletionDate: Option<String>,
    pub accountDeletionLog: Option<String>,
    pub acceptedTOSVersion: u32,
    pub acceptedPrivacyVersion: u32,
    pub steamId: String,
    pub steamDetails: SteamDetails,
    pub googleId: String,
    pub googleDetails: GoogleDetails,
    pub oculusId: String,
    pub picoId: String,
    pub viveId: String,
    pub hasLoggedInFromClient: bool,
    pub homeLocation: String,
    pub twoFactorAuthEnabled: bool,
    pub twoFactorAuthEnabledDate: Option<String>,
    pub updated_at: String,
    pub state: String,
    pub tags: Vec<String>,
    pub developerType: String,
    pub last_login: String,
    pub last_platform: String,
    pub allowAvatarCopying: bool,
    pub status: Status,
    pub date_joined: String,
    pub isFriend: bool,
    pub friendKey: String,
    pub last_activity: String,
    pub onlineFriends: Vec<String>,
    pub activeFriends: Vec<String>,
    pub presence: Presence,
    pub offlineFriends: Vec<String>,
}

/// The text `id` is one of `ids`.
pub open spec fn has_text(ids: Seq<String>, id: Seq<char>) -> bool {
    exists|i: int| 0 <= i < ids.len() && (#[trigger] ids[i])@ == id
}

impl UserProfile {
    /// Whether the friend `id` is among the account's friends active on the
    /// website.
    pub fn is_active_friend(&self, id: &str) -> (r: bool)
        ensures
            r == has_text(self.activeFriends@, id@),
    {
        let mut i: usize = 0;
        while i < self.activeFriends.len()
            invariant
                0 <= i <= self.activeFriends.len(),
                forall|j: int| 0 <= j < i ==> (#[trigger] self.activeFriends@[j])@ != id@,
            decreases self.activeFriends.len() - i,
        {
            if is_text(self.activeFriends[i].as_str(), id) {
                return true;
            }
            i = i + 1;
        }
        false
    }
}

/// The changes that `/profile` makes to the account's profile.
pub struct ProfileUpdate {
    pub status: Status,
    pub statusDescription: String,
    pub bio: String,
    pub bioLinks: Vec<String>,
    pub userIcon: Option<String>,
}

/// Applies a profile change to the kept copy of the account: status, status
/// description, bio and links are replaced, the icon only where the change
/// names one; the rest stays.
pub fn apply_profile_update(user: &mut User, q: ProfileUpdate)
    ensures
        *final(user) == (User {
            status: q.status,
            statusDescription: q.statusDescription,
            bio: q.bio,
            bioLinks: q.bioLinks,
            userIcon: match q.userIcon {
                Some(icon) => icon,
                None => old(user).userIcon,
            },
            ..*old(user)
        }),
{
    user.status = q.status;
    user.statusDescription = q.statusDescription;
    user.bio = q.bio;
    user.bioLinks = q.bioLinks;
    if let Some(icon) = q.userIcon {
        user.userIcon = icon;
    }
}

/// The friend that a `/user` request can be answered with from the friend
/// lists: the first with the id, unless the request forces a fetch.
pub fn cached_friend(friends: &Vec<User>, id: &str, force: bool) -> (r: Option<User>)
    ensures
        match r {
            Some(u) => !force && contains_id(friends@, id@) && same_user(
                u,
                friends@[first_with_id(friends@, id@)],
            ),
            None => force || !contains_id(friends@, id@),
        },
{
    if force {
        return None;
    }
    match position_of_id(friends, id) {
        Some(i) => {
            proof {
                lemma_first_unique(friends@, id@, i as int);
            }
            Some(friends[i].copy())
        },
        None => None,
    }
}

} // verus!
