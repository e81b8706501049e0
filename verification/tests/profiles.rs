use vrcapi_proxy::instance::{instance_members, InstanceData, InstanceWorld};
use vrcapi_proxy::listing::{split_by_privacy, ResFriend};
use vrcapi_proxy::profile::{apply_profile_update, cached_friend, ProfileUpdate};
use vrcapi_proxy::res_user::{rank_of, ResUser};
use vrcapi_proxy::status::Status;
use vrcapi_proxy::unsanitize::Unsanitizer;
use vrcapi_proxy::user::User;
use vrcapi_proxy::world::modify_world;

fn user(id: &str, status: Status, location: Option<&str>) -> User {
    User {
        id: id.to_string(),
        location: location.map(|l| l.to_string()),
        travelingToLocation: None,
        displayName: format!("name-{id}"),
        userIcon: String::new(),
        bio: String::new(),
        bioLinks: Vec::new(),
        profilePicOverride: String::new(),
        statusDescription: String::new(),
        currentAvatarImageUrl: String::new(),
        currentAvatarThumbnailImageUrl: format!("thumb-{id}"),
        tags: Vec::new(),
        developerType: "none".to_string(),
        last_login: String::new(),
        last_platform: String::new(),
        status,
        isFriend: true,
        friendKey: String::new(),
    }
}

fn texts(xs: &[&str]) -> Vec<String> {
    xs.iter().map(|s| s.to_string()).collect()
}

#[test]
fn unsanitize_replaces_lookalikes() {
    let un = Unsanitizer::new().unwrap();
    assert_eq!(
        un.unsanitize("\u{2F8}\u{FF1A}\u{2044}\u{FF3B}\u{FF3D}\u{FF20}\u{FF02}\u{2024}\u{201A}\u{227B}\u{FF03}"),
        "::/[]@\".,>#"
    );
    assert_eq!(un.unsanitize("plain text ünïcode"), "plain text ünïcode");
    let once = un.unsanitize("https\u{2F8}\u{2044}\u{2044}example\u{2024}com");
    assert_eq!(once, "https://example.com");
    assert_eq!(un.unsanitize(&once), once);
    assert_eq!(un.unsanitize(""), "");
}

#[test]
fn user_unsanitize_touches_bio_and_status_only() {
    let un = Unsanitizer::new().unwrap();
    let mut u = user("a", Status::Active, Some("w"));
    u.bio = "a\u{FF20}b".to_string();
    u.statusDescription = "x\u{227B}y".to_string();
    u.displayName = "n\u{FF20}m".to_string();
    u.unsanitize(&un);
    assert_eq!(u.bio, "a@b");
    assert_eq!(u.statusDescription, "x>y");
    assert_eq!(u.displayName, "n\u{FF20}m");
}

#[test]
fn rank_from_tags() {
    assert_eq!(rank_of(&texts(&[])), "Visitor");
    assert_eq!(rank_of(&texts(&["system_trust_basic", "system_trust_known"])), "User");
    assert_eq!(
        rank_of(&texts(&["system_trust_veteran", "system_supporter", "system_trust_known"])),
        "User VRC+"
    );
    assert_eq!(rank_of(&texts(&["system_trust_trusted", "x"])), "Known");
    assert_eq!(rank_of(&texts(&["system_supporter"])), "Visitor VRC+");
    assert_eq!(rank_of(&texts(&["system_troll", "system_trust_veteran"])), "Trusted");
    assert_eq!(rank_of(&texts(&["system_trust_veteran", "system_troll"])), "Troll");
}

#[test]
fn res_user_from_user() {
    let mut u = user("a", Status::Busy, Some("w"));
    u.tags = texts(&["system_trust_basic"]);
    u.bio = "bio".to_string();
    let r = ResUser::from_user(u);
    assert_eq!(r.rank, "New User");
    assert_eq!(r.id, "a");
    assert_eq!(r.bio, "bio");
    assert_eq!(r.status, Status::Busy);
    assert_eq!(r.location.as_deref(), Some("w"));
}

#[test]
fn world_tags_and_description() {
    let un = Unsanitizer::new().unwrap();
    let mut tags = texts(&["author_tag_game", "system_approved", "author_tag_chill", "author_tagx"]);
    let mut description = "a\u{FF03}1".to_string();
    modify_world(&mut tags, &mut description, &un);
    assert_eq!(tags, texts(&["game", "chill", ""]));
    assert_eq!(description, "a#1");
}

#[test]
fn friends_split_by_privacy() {
    let online = vec![
        user("a", Status::JoinMe, Some("wrld_1:1")),
        user("b", Status::Active, Some("private")),
        user("c", Status::Busy, None),
        user("d", Status::Busy, Some("wrld_2:2")),
    ];
    let mut r: ResFriend = split_by_privacy(&online);
    let ids = |v: &Vec<User>| v.iter().map(|u| u.id.clone()).collect::<Vec<String>>();
    assert_eq!(ids(&r.public), texts(&["a", "d"]));
    assert_eq!(ids(&r.private), texts(&["b", "c"]));
    r.keep_favorites(&texts(&["d", "c", "z"]));
    assert_eq!(ids(&r.public), texts(&["d"]));
    assert_eq!(ids(&r.private), texts(&["c"]));
}

#[test]
fn friends_in_an_instance() {
    let mut a = user("a", Status::JoinMe, Some("wrld_1:1"));
    a.userIcon = "icon-a".to_string();
    a.profilePicOverride = "pic-a".to_string();
    let mut b = user("b", Status::JoinMe, Some("wrld_1:1"));
    b.profilePicOverride = "pic-b".to_string();
    let c = user("c", Status::JoinMe, Some("wrld_1:1"));
    let d = user("d", Status::JoinMe, Some("wrld_2:1"));
    let members = instance_members(&vec![a, b, c, d], "wrld_1:1");
    assert_eq!(
        members,
        vec![
            ("icon-a".to_string(), "name-a".to_string()),
            ("pic-b".to_string(), "name-b".to_string()),
            ("thumb-c".to_string(), "name-c".to_string()),
        ]
    );
    let un = Unsanitizer::new().unwrap();
    let data = InstanceData {
        ownerId: None,
        userCount: 3,
        world: InstanceWorld {
            name: "W".to_string(),
            description: "d\u{FF1A}".to_string(),
            thumbnailImageUrl: "t".to_string(),
        },
    };
    let r = data.into_res(members, &un);
    assert_eq!(r.description, "d:");
    assert_eq!(r.userCount, 3);
    assert_eq!(r.users.len(), 3);
}

#[test]
fn profile_update_applies() {
    let mut me = user("me", Status::JoinMe, Some("w"));
    me.userIcon = "old".to_string();
    apply_profile_update(
        &mut me,
        ProfileUpdate {
            status: Status::Busy,
            statusDescription: "sd".to_string(),
            bio: "b".to_string(),
            bioLinks: texts(&["l"]),
            userIcon: None,
        },
    );
    assert_eq!(me.status, Status::Busy);
    assert_eq!(me.userIcon, "old");
    assert_eq!(me.bio, "b");
    apply_profile_update(
        &mut me,
        ProfileUpdate {
            status: Status::Active,
            statusDescription: String::new(),
            bio: String::new(),
            bioLinks: Vec::new(),
            userIcon: Some("new".to_string()),
        },
    );
    assert_eq!(me.userIcon, "new");
    assert_eq!(me.id, "me");
}

#[test]
fn cached_friend_lookup() {
    let friends = vec![user("a", Status::Active, Some("w")), user("b", Status::Busy, Some("w"))];
    assert_eq!(cached_friend(&friends, "b", false).map(|u| u.status), Some(Status::Busy));
    assert!(cached_friend(&friends, "b", true).is_none());
    assert!(cached_friend(&friends, "z", false).is_none());
}
