use vstd::prelude::*;

use crate::status::Status;
use crate::unsanitize::{unsanitized, Unsanitizer};

verus! {

/// A VRChat user as this proxy keeps it: a friend, or the account itself.
///
/// Two users compare by their status alone (see `order`).
pub struct User {
    pub id: String,
    pub location: Option<String>,
    pub travelingToLocation: Option<String>,
    pub displayName: String,
    pub userIcon: String,
    pub bio: String,
    pub bioLinks: Vec<String>,
    pub profilePicOverride: String,
    pub statusDescription: String,
    pub currentAvatarImageUrl: String,
    pub currentAvatarThumbnailImageUrl: String,
    pub tags: Vec<String>,
    pub developerType: String,
    pub last_login: String,
    pub last_platform: String,
    pub status: Status,
    pub isFriend: bool,
    pub friendKey: String,
}

/// The user object inside a location event of the stream.
pub struct LocationEventUser {
    pub id: String,
    pub displayName: String,
    pub userIcon: String,
    pub bio: String,
    pub bioLinks: Vec<String>,
    pub profilePicOverride: String,
    pub statusDescription: String,
    pub currentAvatarImageUrl: String,
    pub currentAvatarThumbnailImageUrl: String,
    pub currentAvatarTags: Vec<String>,
    pub state: String,
    pub tags: Vec<String>,
    pub developerType: String,
    pub last_login: String,
    pub last_platform: String,
    pub allowAvatarCopying: bool,
    pub status: Status,
    pub date_joined: String,
    pub isFriend: bool,
    pub friendKey: String,
    pub last_activity: String,
}

/// A world as the stream describes it inside a location event.
pub struct World {
    pub id: String,
    pub name: String,
    pub description: String,
    pub authorId: String,
    pub authorName: String,
    pub releaseStatus: String,
    pub featured: bool,
    pub capacity: i32,
    pub recommendedCapacity: i32,
    pub imageUrl: String,
    pub thumbnailImageUrl: String,
    pub namespace: String,
    pub version: i32,
    pub organization: String,
    pub previewYoutubeId: Option<String>,
    pub udonProducts: Vec<String>,
    pub favorites: i32,
    pub visits: i32,
    pub popularity: i32,
    pub heat: i32,
    pub publicationDate: String,
    pub labsPublicationDate: String,
    pub instances: Vec<String>,
    pub publicOccupants: i32,
    pub privateOccupants: i32,
    pub occupants: i32,
    pub tags: Vec<String>,
    pub created_at: String,
    pub updated_at: String,
}

/// The content of a `friend-online`, `friend-location` or `user-location`
/// event of the stream.
pub struct LocationEventContent {
    pub userId: String,
    pub location: Option<String>,
    pub travelingToLocation: Option<String>,
    pub worldId: Option<String>,
    pub canRequestInvite: Option<bool>,
    pub user: LocationEventUser,
    pub world: Option<World>,
}

/// `a` and `b` hold the same user: equal fields, equal lists.
pub open spec fn same_user(a: User, b: User) -> bool {
    &&& a.id == b.id
    &&& a.location == b.location
    &&& a.travelingToLocation == b.travelingToLocation
    &&& a.displayName == b.displayName
    &&& a.userIcon == b.userIcon
    &&& a.bio == b.bio
    &&& a.bioLinks@ == b.bioLinks@
    &&& a.profilePicOverride == b.profilePicOverride
    &&& a.statusDescription == b.statusDescription
    &&& a.currentAvatarImageUrl == b.currentAvatarImageUrl
    &&& a.currentAvatarThumbnailImageUrl == b.currentAvatarThumbnailImageUrl
    &&& a.tags@ == b.tags@
    &&& a.developerType == b.developerType
    &&& a.last_login == b.last_login
    &&& a.last_platform == b.last_platform
    &&& a.status == b.status
    &&& a.isFriend == b.isFriend
    &&& a.friendKey == b.friendKey
}

/// `u` is the user that the location event `e` describes: the event's user,
/// placed at the event's location (none where the event gives none).
pub open spec fn describes(e: LocationEventContent, u: User) -> bool {
    &&& u.id == e.user.id
    &&& u.location == e.location
    &&& u.travelingToLocation == e.travelingToLocation
    &&& u.displayName == e.user.displayName
    &&& u.userIcon == e.user.userIcon
    &&& u.bio == e.user.bio
    &&& u.bioLinks == e.user.bioLinks
    &&& u.profilePicOverride == e.user.profilePicOverride
    &&& u.statusDescription == e.user.statusDescription
    &&& u.currentAvatarImageUrl == e.user.currentAvatarImageUrl
    &&& u.currentAvatarThumbnailImageUrl == e.user.currentAvatarThumbnailImageUrl
    &&& u.tags == e.user.tags
    &&& u.developerType == e.user.developerType
    &&& u.last_login == e.user.last_login
    &&& u.last_platform == e.user.last_platform
    &&& u.status == e.user.status
    &&& u.isFriend == e.user.isFriend
    &&& u.friendKey == e.user.friendKey
}

impl User {
    /// The user that a location event describes.
    pub fn from_location_event(e: LocationEventContent) -> (u: User)
        ensures
            describes(e, u),
    {
        User {
            id: e.user.id,
            location: e.location,
            travelingToLocation: e.travelingToLocation,
            displayName: e.user.displayName,
            userIcon: e.user.userIcon,
            bio: e.user.bio,
            bioLinks: e.user.bioLinks,
            profilePicOverride: e.user.profilePicOverride,
            statusDescription: e.user.statusDescription,
            currentAvatarImageUrl: e.user.currentAvatarImageUrl,
            currentAvatarThumbnailImageUrl: e.user.currentAvatarThumbnailImageUrl,
            tags: e.user.tags,
            developerType: e.user.developerType,
            last_login: e.user.last_login,
            last_platform: e.user.last_platform,
            status: e.user.status,
            isFriend: e.user.isFriend,
            friendKey: e.user.friendKey,
        }
    }

    /// Undoes the look-alike replacement in the bio and the status
    /// description; the rest of the user is left as it is.
    pub fn unsanitize(&mut self, un: &Unsanitizer)
        ensures
            final(self).bio@ == unsanitized(old(self).bio@),
            final(self).statusDescription@ == unsanitized(old(self).statusDescription@),
            *final(self) == (User {
                bio: final(self).bio,
                statusDescription: final(self).statusDescription,
                ..*old(self)
            }),
    {
        self.bio = un.unsanitize(self.bio.as_str());
        self.statusDescription = un.unsanitize(self.statusDescription.as_str());
    }

    /// A copy of this user.
    pub fn copy(&self) -> (r: User)
        ensures
            same_user(r, *self),
    {
        User {
            id: self.id.clone(),
            location: copy_opt(&self.location),
            travelingToLocation: copy_opt(&self.travelingToLocation),
            displayName: self.displayName.clone(),
            userIcon: self.userIcon.clone(),
            bio: self.bio.clone(),
            bioLinks: copy_texts(&self.bioLinks),
            profilePicOverride: self.profilePicOverride.clone(),
            statusDescription: self.statusDescription.clone(),
            currentAvatarImageUrl: self.currentAvatarImageUrl.clone(),
            currentAvatarThumbnailImageUrl: self.currentAvatarThumbnailImageUrl.clone(),
            tags: copy_texts(&self.tags),
            developerType: self.developerType.clone(),
            last_login: self.last_login.clone(),
            last_platform: self.last_platform.clone(),
            status: self.status,
            isFriend: self.isFriend,
            friendKey: self.friendKey.clone(),
        }
    }
}

/// A copy of an optional text.
pub fn copy_opt(s: &Option<String>) -> (r: Option<String>)
    ensures
        r == *s,
{
    match s {
        Some(t) => Some(t.clone()),
        None => None,
    }
}

/// A copy of a list of texts.
pub fn copy_texts(v: &Vec<String>) -> (r: Vec<String>)
    ensures
        r@ == v@,
{
    let mut r: Vec<String> = Vec::new();
    let mut i: usize = 0;
    while i < v.len()
        invariant
            0 <= i <= v.len(),
            r@ == v@.take(i as int),
        decreases v.len() - i,
    {
        r.push(v[i].clone());
        proof {
            assert(v@.take(i + 1) == v@.take(i as int).push(v@[i as int]));
        }
        i = i + 1;
    }
    proof {
        assert(v@.take(i as int) =~= v@);
    }
    r
}

} // verus!
