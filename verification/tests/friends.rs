use vrcapi_proxy::friends::{find_remove, online_at_start, push_and_sort, Friends};
use vrcapi_proxy::ordering::sort_by_status;
use vrcapi_proxy::paging::{FriendPages, FRIENDS_PAGE_SIZE};
use vrcapi_proxy::status::Status;
use vrcapi_proxy::unsanitize::Unsanitizer;
use vrcapi_proxy::user::{LocationEventContent, LocationEventUser, User};

fn user(id: &str, status: Status, location: Option<&str>) -> User {
    User {
        id: id.to_string(),
        location: location.map(|l| l.to_string()),
        travelingToLocation: None,
        displayName: format!("name-{id}"),
        userIcon: String::new(),
        bio: String::new(),
        bioLinks: Vec::new(),
        profilePicOverride: String::new(),
        statusDescription: String::new(),
        currentAvatarImageUrl: String::new(),
        currentAvatarThumbnailImageUrl: String::new(),
        tags: Vec::new(),
        developerType: "none".to_string(),
        last_login: String::new(),
        last_platform: "standalonewindows".to_string(),
        status,
        isFriend: true,
        friendKey: String::new(),
    }
}

fn ids(v: &[User]) -> Vec<&str> {
    v.iter().map(|u| u.id.as_str()).collect()
}

fn statuses(v: &[User]) -> Vec<Status> {
    v.iter().map(|u| u.status).collect()
}

#[test]
fn sort_is_stable_by_status() {
    let mut v = vec![
        user("a", Status::Busy, Some("w")),
        user("b", Status::JoinMe, Some("w")),
        user("c", Status::Busy, Some("w")),
        user("d", Status::Active, Some("w")),
        user("e", Status::Offline, None),
        user("f", Status::JoinMe, Some("w")),
        user("g", Status::AskMe, Some("w")),
    ];
    sort_by_status(&mut v);
    assert_eq!(ids(&v), vec!["b", "f", "d", "g", "a", "c", "e"]);
}

#[test]
fn sort_twice_changes_nothing() {
    let mut v = vec![
        user("a", Status::Offline, None),
        user("b", Status::Active, Some("w")),
        user("c", Status::Active, Some("w")),
    ];
    sort_by_status(&mut v);
    let once: Vec<String> = v.iter().map(|u| u.id.clone()).collect();
    sort_by_status(&mut v);
    let twice: Vec<String> = v.iter().map(|u| u.id.clone()).collect();
    assert_eq!(once, twice);
    assert_eq!(once, vec!["b", "c", "a"]);
}

#[test]
fn sort_of_empty_list() {
    let mut v: Vec<User> = Vec::new();
    sort_by_status(&mut v);
    assert!(v.is_empty());
}

#[test]
fn push_and_sort_places_after_equal_status() {
    let mut v = vec![user("a", Status::JoinMe, Some("w")), user("b", Status::Active, Some("w"))];
    push_and_sort(&mut v, user("c", Status::JoinMe, Some("w")));
    assert_eq!(ids(&v), vec!["a", "c", "b"]);
}

#[test]
fn find_remove_takes_first_match_only() {
    let mut v = vec![
        user("a", Status::Active, Some("w")),
        user("b", Status::Busy, Some("w")),
        user("b", Status::JoinMe, Some("w")),
    ];
    let r = find_remove(&mut v, "b").unwrap();
    assert_eq!(r.status, Status::Busy);
    assert_eq!(ids(&v), vec!["a", "b"]);
    assert!(find_remove(&mut v, "z").is_none());
    assert_eq!(v.len(), 2);
}

#[test]
fn location_replaces_online_friend_in_place() {
    let mut f = Friends::new();
    f.online = vec![user("a", Status::JoinMe, Some("w1")), user("b", Status::JoinMe, Some("w1"))];
    f.on_location(user("a", Status::JoinMe, Some("w2")));
    assert_eq!(ids(&f.online), vec!["a", "b"]);
    assert_eq!(f.online[0].location.as_deref(), Some("w2"));
}

#[test]
fn location_with_new_status_reorders() {
    let mut f = Friends::new();
    f.online = vec![user("a", Status::JoinMe, Some("w1")), user("b", Status::Active, Some("w1"))];
    f.on_location(user("a", Status::Busy, Some("w1")));
    assert_eq!(ids(&f.online), vec!["b", "a"]);
    assert_eq!(statuses(&f.online), vec![Status::Active, Status::Busy]);
}

#[test]
fn location_moves_friend_from_offline_to_online() {
    let mut f = Friends::new();
    f.offline = vec![user("a", Status::Offline, None), user("c", Status::Offline, None)];
    f.web = vec![user("a", Status::Active, Some("offline"))];
    f.online = vec![user("b", Status::Busy, Some("w"))];
    f.on_location(user("a", Status::Active, Some("w")));
    assert_eq!(ids(&f.online), vec!["a", "b"]);
    assert_eq!(ids(&f.offline), vec!["c"]);
    // only the first list that holds the friend loses it
    assert_eq!(ids(&f.web), vec!["a"]);
}

#[test]
fn active_moves_friend_to_web() {
    let mut f = Friends::new();
    f.online = vec![user("a", Status::Active, Some("w")), user("b", Status::JoinMe, Some("w"))];
    f.web = vec![user("c", Status::Busy, Some("offline"))];
    f.on_active(user("a", Status::Active, Some("offline")));
    assert_eq!(ids(&f.online), vec!["b"]);
    assert_eq!(ids(&f.web), vec!["a", "c"]);
}

#[test]
fn add_places_new_friend() {
    let u = user("a", Status::AskMe, Some("w"));
    assert!(Friends::needs_active_check(&u));
    let mut f = Friends::new();
    f.on_add(u, true);
    assert_eq!(ids(&f.web), vec!["a"]);

    let mut f = Friends::new();
    f.on_add(user("a", Status::Busy, Some("w")), false);
    assert_eq!(ids(&f.online), vec!["a"]);

    let u = user("a", Status::Active, Some("w"));
    assert!(!Friends::needs_active_check(&u));
    let mut f = Friends::new();
    f.on_add(u, true);
    assert_eq!(ids(&f.online), vec!["a"]);

    let u = user("a", Status::AskMe, Some("offline"));
    assert!(!Friends::needs_active_check(&u));
    let mut f = Friends::new();
    f.on_add(u, true);
    assert_eq!(ids(&f.offline), vec!["a"]);

    let mut f = Friends::new();
    f.on_add(user("a", Status::Active, None), false);
    assert_eq!(ids(&f.offline), vec!["a"]);
}

#[test]
fn delete_removes_friend() {
    let mut f = Friends::new();
    f.online = vec![user("a", Status::Active, Some("w"))];
    f.web = vec![user("b", Status::Active, Some("offline"))];
    f.offline = vec![user("c", Status::Offline, None)];
    f.on_delete("b");
    assert!(f.web.is_empty());
    f.on_delete("a");
    assert!(f.online.is_empty());
    f.on_delete("zz");
    assert_eq!(ids(&f.offline), vec!["c"]);
}

#[test]
fn offline_moves_friend_to_end_of_offline_list() {
    let mut f = Friends::new();
    f.online = vec![user("a", Status::JoinMe, Some("w"))];
    f.web = vec![user("b", Status::Busy, Some("offline"))];
    f.offline = vec![user("c", Status::Offline, None)];
    f.on_offline("a");
    f.on_offline("b");
    f.on_offline("c");
    assert!(f.online.is_empty());
    assert!(f.web.is_empty());
    assert_eq!(ids(&f.offline), vec!["c", "a", "b"]);
    assert_eq!(f.offline[1].status, Status::Offline);
    assert_eq!(f.offline[1].location, None);
    assert_eq!(f.offline[2].travelingToLocation, None);
}

#[test]
fn user_location_sets_myself() {
    let mut f = Friends::new();
    assert!(f.myself.is_none());
    f.on_user_location(user("me", Status::JoinMe, Some("w")));
    assert_eq!(f.myself.as_ref().map(|u| u.id.as_str()), Some("me"));
}

#[test]
fn events_keep_ids_unique_and_lists_ordered() {
    let mut f = Friends::new();
    f.on_add(user("a", Status::Active, Some("w")), false);
    f.on_add(user("b", Status::JoinMe, Some("w")), false);
    f.on_add(user("c", Status::Offline, None), false);
    f.on_location(user("c", Status::Busy, Some("w")));
    f.on_active(user("a", Status::Active, Some("offline")));
    f.on_location(user("b", Status::AskMe, Some("w")));
    f.on_offline("c");
    f.on_location(user("a", Status::JoinMe, Some("w")));
    let mut all: Vec<&str> = ids(&f.online);
    all.extend(ids(&f.web));
    all.extend(ids(&f.offline));
    let mut sorted = all.clone();
    sorted.sort();
    sorted.dedup();
    assert_eq!(all.len(), sorted.len());
    let ranks: Vec<u8> = f.online.iter().map(|u| u.status.rank()).collect();
    assert!(ranks.windows(2).all(|w| w[0] <= w[1]));
    assert_eq!(ids(&f.online), vec!["a", "b"]);
    assert_eq!(ids(&f.offline), vec!["c"]);
}

#[test]
fn online_at_start_keeps_friends_in_worlds() {
    let un = Unsanitizer::new().unwrap();
    let mut b = user("b", Status::Busy, Some("w"));
    b.bio = "a\u{FF1A}b".to_string();
    let friends = vec![
        b,
        user("a", Status::Offline, Some("offline")),
        user("c", Status::JoinMe, Some("private")),
        user("d", Status::Active, None),
    ];
    let online = online_at_start(friends, &un);
    assert_eq!(ids(&online), vec!["c", "b"]);
    assert_eq!(online[1].bio, "a:b");
}

fn location_event(location: Option<&str>) -> LocationEventContent {
    LocationEventContent {
        userId: "u".to_string(),
        location: location.map(|l| l.to_string()),
        travelingToLocation: Some("wrld_x".to_string()),
        worldId: None,
        canRequestInvite: None,
        user: LocationEventUser {
            id: "u".to_string(),
            displayName: "U".to_string(),
            userIcon: String::new(),
            bio: "bio".to_string(),
            bioLinks: vec!["l".to_string()],
            profilePicOverride: String::new(),
            statusDescription: String::new(),
            currentAvatarImageUrl: String::new(),
            currentAvatarThumbnailImageUrl: "t".to_string(),
            currentAvatarTags: Vec::new(),
            state: "online".to_string(),
            tags: vec!["system_trust_known".to_string()],
            developerType: "none".to_string(),
            last_login: String::new(),
            last_platform: String::new(),
            allowAvatarCopying: false,
            status: Status::Busy,
            date_joined: String::new(),
            isFriend: true,
            friendKey: "k".to_string(),
            last_activity: String::new(),
        },
        world: None,
    }
}

#[test]
fn user_from_location_event() {
    let e = location_event(None);
    let u = User::from_location_event(e);
    assert_eq!(u.location, None);
    assert_eq!(u.travelingToLocation.as_deref(), Some("wrld_x"));
    assert_eq!(u.status, Status::Busy);
    assert_eq!(u.bioLinks, vec!["l".to_string()]);
    assert_eq!(u.friendKey, "k");
}

#[test]
fn users_compare_by_status() {
    let a = user("a", Status::JoinMe, None);
    let b = user("b", Status::JoinMe, Some("w"));
    let c = user("c", Status::Offline, None);
    assert!(a == b);
    assert!(a < c);
    assert!(c > b);
    assert_eq!(Status::default(), Status::Offline);
}

#[test]
fn user_from_location_event_keeps_location() {
    let u = User::from_location_event(location_event(Some("wrld_a:1~private(usr_x)")));
    assert_eq!(u.location.as_deref(), Some("wrld_a:1~private(usr_x)"));
    assert_eq!(u.travelingToLocation.as_deref(), Some("wrld_x"));
    assert_eq!(u.id, "u");
}

#[test]
fn location_event_places_friend_once_in_online_list() {
    let mut f = Friends::new();
    f.offline = vec![user("c", Status::Offline, None), user("a", Status::Offline, None)];
    f.online = vec![user("b", Status::JoinMe, Some("w")), user("d", Status::Busy, Some("w"))];
    f.web = vec![user("e", Status::Active, Some("offline"))];
    f.on_location(user("a", Status::Active, Some("w2")));
    assert_eq!(ids(&f.online), vec!["b", "a", "d"]);
    assert_eq!(ids(&f.online).iter().filter(|i| **i == "a").count(), 1);
    assert_eq!(f.online[1].location.as_deref(), Some("w2"));
    assert_eq!(ids(&f.offline), vec!["c"]);
    assert_eq!(ids(&f.web), vec!["e"]);
    // a second event for the same friend still leaves it there once
    f.on_location(user("a", Status::Active, Some("w3")));
    assert_eq!(ids(&f.online), vec!["b", "a", "d"]);
    assert_eq!(f.online[1].location.as_deref(), Some("w3"));
}

#[test]
fn friend_pages_gather_until_an_empty_page() {
    let un = Unsanitizer::new().unwrap();
    let mut pages = FriendPages::new();
    assert_eq!(pages.offset, 0);
    assert_eq!(
        pages.next_page(true).url(),
        "https://api.vrchat.cloud/api/1/auth/user/friends?offline=true&n=50&offset=0"
    );
    let mut a = user("a", Status::Offline, None);
    a.bio = "see\u{2024}here".to_string();
    assert!(pages.on_page(vec![a, user("b", Status::Offline, None)]));
    assert_eq!(pages.offset, 50);
    assert_eq!(
        pages.next_page(false).url(),
        "https://api.vrchat.cloud/api/1/auth/user/friends?offline=false&n=50&offset=50"
    );
    assert!(pages.on_page(vec![user("c", Status::Offline, None)]));
    assert_eq!(pages.offset, FRIENDS_PAGE_SIZE * 2);
    assert!(!pages.on_page(Vec::new()));
    assert_eq!(pages.offset, 100);
    let all = pages.finish(&un);
    assert_eq!(ids(&all), vec!["a", "b", "c"]);
    assert_eq!(all[0].bio, "see.here");
}

#[test]
fn friend_pages_with_no_friends() {
    let un = Unsanitizer::new().unwrap();
    let mut pages = FriendPages::new();
    assert!(!pages.on_page(Vec::new()));
    assert_eq!(pages.offset, 0);
    assert!(pages.finish(&un).is_empty());
}

#[test]
fn location_event_unsanitizes_then_places() {
    let un = Unsanitizer::new().unwrap();
    let mut f = Friends::new();
    f.offline = vec![user("a", Status::Offline, None)];
    f.online = vec![user("b", Status::Busy, Some("w"))];
    let mut a = user("a", Status::JoinMe, Some("w2"));
    a.bio = "see\u{2024}here\u{FF03}1".to_string();
    a.statusDescription = "at \u{FF20}home".to_string();
    f.on_location_event(a, &un);
    assert_eq!(ids(&f.online), vec!["a", "b"]);
    assert_eq!(f.online[0].bio, "see.here#1");
    assert_eq!(f.online[0].statusDescription, "at @home");
    assert_eq!(f.online[0].location.as_deref(), Some("w2"));
    assert!(f.offline.is_empty());
}

#[test]
fn add_event_unsanitizes_then_places() {
    let un = Unsanitizer::new().unwrap();
    let mut f = Friends::new();
    let mut a = user("a", Status::Offline, None);
    a.bio = "x\u{2044}y".to_string();
    f.on_add_event(a, false, &un);
    assert_eq!(ids(&f.offline), vec!["a"]);
    assert_eq!(f.offline[0].bio, "x/y");
    assert!(f.online.is_empty() && f.web.is_empty());
}
