use vstd::prelude::*;

use percent_encoding::{utf8_percent_encode, NON_ALPHANUMERIC};

use crate::request::{clamp_result_count, result_count};

verus! {

/// The digit for `d` (below ten).
pub open spec fn digit_char(d: nat) -> char {
    ((48 + d) as u32) as char
}

/// The decimal writing of `n`, without leading zeros.
pub open spec fn decimal(n: nat) -> Seq<char>
    decreases n,
{
    if n < 10 {
        seq![digit_char(n)]
    } else {
        decimal(n / 10).push(digit_char(n % 10))
    }
}

fn digit(d: u64) -> (r: &'static str)
    requires
        d < 10,
    ensures
        r@ == seq![digit_char(d as nat)],
{
    proof {
        reveal_strlit("0");
        reveal_strlit("1");
        reveal_strlit("2");
        reveal_strlit("3");
        reveal_strlit("4");
        reveal_strlit("5");
        reveal_strlit("6");
        reveal_strlit("7");
        reveal_strlit("8");
        reveal_strlit("9");
    }
    let r = match d {
        0 => "0",
        1 => "1",
        2 => "2",
        3 => "3",
        4 => "4",
        5 => "5",
        6 => "6",
        7 => "7",
        8 => "8",
        _ => "9",
    };
    proof {
        assert(r@ =~= seq![digit_char(d as nat)]);
    }
    r
}

/// The decimal writing of `n`.
pub fn to_decimal(n: u64) -> (r: String)
    ensures
        r@ == decimal(n as nat),
    decreases n,
{
    if n < 10 {
        String::from_str(digit(n))
    } else {
        let mut s = to_decimal(n / 10);
        s.append(digit(n % 10));
        s
    }
}

/// The hexadecimal digit (upper case) for `d` (below sixteen).
pub open spec fn hex_char(d: nat) -> char {
    if d < 10 {
        ((48 + d) as u32) as char
    } else {
        ((55 + d) as u32) as char
    }
}

/// The byte is an ASCII letter or digit.
pub open spec fn is_ascii_alphanumeric(b: u8) -> bool {
    (48 <= b <= 57) || (65 <= b <= 90) || (97 <= b <= 122)
}

/// A byte as percent-encoding with `NON_ALPHANUMERIC` writes it: an ASCII
/// letter or digit stays, any other byte becomes `%` and two upper-case
/// hexadecimal digits.
pub open spec fn percent_byte(b: u8) -> Seq<char> {
    if is_ascii_alphanumeric(b) {
        seq![(b as u32) as char]
    } else {
        seq!['%', hex_char(b as nat / 16), hex_char(b as nat % 16)]
    }
}

/// Bytes percent-encoded with `NON_ALPHANUMERIC`, one after the other.
pub open spec fn percent_bytes(bs: Seq<u8>) -> Seq<char>
    decreases bs.len(),
{
    if bs.len() == 0 {
        Seq::empty()
    } else {
        percent_bytes(bs.drop_last()) + percent_byte(bs.last())
    }
}

/// A text percent-encoded with `NON_ALPHANUMERIC`: its UTF-8 bytes, encoded
/// one by one.
pub open spec fn percent_encoded(s: Seq<char>) -> Seq<char> {
    percent_bytes(vstd::utf8::encode_utf8(s))
}

/// `utf8_percent_encode` with `NON_ALPHANUMERIC`, written out as a `String`.
/// Claimed: each UTF-8 byte of `s` that is an ASCII letter or digit is kept,
/// and every other byte becomes `%` and two upper-case hexadecimal digits.
#[verifier::external_body]
fn percent_encode(s: &str) -> (r: String)
    ensures
        r@ == percent_encoded(s@),
{
    utf8_percent_encode(s, NON_ALPHANUMERIC).to_string()
}

/// The address of a user search, given the user name already percent-encoded
/// and the number of results asked for.
pub fn search_url(encoded_username: &str, n: Option<usize>) -> (r: String)
    ensures
        r@ == "https://api.vrchat.cloud/api/1/users?search="@ + encoded_username@ + "&n="@ + decimal(
            result_count(n) as nat,
        ),
{
    let count = to_decimal(clamp_result_count(n) as u64);
    String::from_str("https://api.vrchat.cloud/api/1/users?search=").concat(encoded_username).concat(
        "&n=",
    ).concat(count.as_str())
}

/// A request that the proxy makes to the VRChat API.
pub enum Endpoint {
    /// The logged-in account (login, and the account's own data).
    AuthUser,
    /// A user by id (reading it, or updating the account's profile).
    User { id: String },
    /// A search for users by name, with the number of results asked for.
    SearchUsers { username: String, n: Option<usize> },
    /// One page of fifty friends, online or offline, from `offset` on.
    FriendsPage { offline: bool, offset: u16 },
    /// The friends that are online.
    OnlineFriends,
    /// The friendship state with a user.
    FriendStatus { user_id: String },
    /// A friend request to a user.
    FriendRequest { user_id: String },
    /// Accepting the friend request of a notification.
    AcceptFriend { notification_id: String },
    /// The account's notifications.
    Notifications,
    /// A group by id.
    Group { group_id: String },
    /// An instance by id.
    Instance { instance_id: String },
    /// An invitation of the account to an instance (`world:instance`).
    InviteMyself { instance_id: String },
    /// A world by id.
    World { world_id: String },
    /// The verification of a two-factor code of the given kind.
    TwoFactorVerify { kind: String },
    /// The verification of a code sent by mail.
    EmailOtpVerify,
    /// The account's favorites.
    Favorites,
    /// The account's favorite friends.
    FavoriteFriends,
}

/// The address of a request to the API.
pub open spec fn endpoint_url(e: Endpoint) -> Seq<char> {
    match e {
        Endpoint::AuthUser => "https://api.vrchat.cloud/api/1/auth/user"@,
        Endpoint::User { id } => "https://api.vrchat.cloud/api/1/users/"@ + id@,
        Endpoint::SearchUsers { username, n } => "https://api.vrchat.cloud/api/1/users?search="@
            + percent_encoded(username@) + "&n="@ + decimal(result_count(n) as nat),
        Endpoint::FriendsPage { offline, offset } =>
            "https://api.vrchat.cloud/api/1/auth/user/friends?offline="@ + (if offline {
                "true"@
            } else {
                "false"@
            }) + "&n=50&offset="@ + decimal(offset as nat),
        Endpoint::OnlineFriends => "https://api.vrchat.cloud/api/1/auth/user/friends?offline=false"@,
        Endpoint::FriendStatus { user_id } => "https://api.vrchat.cloud/api/1/user/"@ + user_id@
            + "/friendStatus"@,
        Endpoint::FriendRequest { user_id } => "https://api.vrchat.cloud/api/1/user/"@ + user_id@
            + "/friendRequest"@,
        Endpoint::AcceptFriend { notification_id } =>
            "https://api.vrchat.cloud/api/1/auth/user/notifications/"@ + notification_id@
            + "/accept"@,
        Endpoint::Notifications => "https://api.vrchat.cloud/api/1/auth/user/notifications"@,
        Endpoint::Group { group_id } => "https://api.vrchat.cloud/api/1/groups/"@ + group_id@,
        Endpoint::Instance { instance_id } => "https://api.vrchat.cloud/api/1/instances/"@
            + instance_id@,
        Endpoint::InviteMyself { instance_id } => "https://api.vrchat.cloud/api/1/invite/myself/to/"@
            + instance_id@,
        Endpoint::World { world_id } => "https://api.vrchat.cloud/api/1/worlds/"@ + world_id@,
        Endpoint::TwoFactorVerify { kind } => "https://api.vrchat.cloud/api/1/auth/twofactorauth/"@
            + kind@ + "/verify"@,
        Endpoint::EmailOtpVerify =>
            "https://api.vrchat.cloud/api/1/auth/twofactorauth/emailotp/verify"@,
        Endpoint::Favorites => "https://api.vrchat.cloud/api/1/favorites"@,
        Endpoint::FavoriteFriends => "https://api.vrchat.cloud/api/1/favorites?type=friend&n=60"@,
    }
}

impl Endpoint {
    /// The address of this request.
    pub fn url(&self) -> (r: String)
        ensures
            r@ == endpoint_url(*self),
    {
        match self {
            Endpoint::AuthUser => String::from_str("https://api.vrchat.cloud/api/1/auth/user"),
            Endpoint::User { id } => String::from_str("https://api.vrchat.cloud/api/1/users/").concat(
                id.as_str(),
            ),
            Endpoint::SearchUsers { username, n } => {
                let encoded = percent_encode(username.as_str());
                search_url(encoded.as_str(), *n)
            },
            Endpoint::FriendsPage { offline, offset } => {
                let flag = if *offline {
                    "true"
                } else {
                    "false"
                };
                let offset = to_decimal(*offset as u64);
                String::from_str("https://api.vrchat.cloud/api/1/auth/user/friends?offline=").concat(
                    flag,
                ).concat("&n=50&offset=").concat(offset.as_str())
            },
            Endpoint::OnlineFriends => String::from_str(
                "https://api.vrchat.cloud/api/1/auth/user/friends?offline=false",
            ),
            Endpoint::FriendStatus { user_id } => String::from_str(
                "https://api.vrchat.cloud/api/1/user/",
            ).concat(user_id.as_str()).concat("/friendStatus"),
            Endpoint::FriendRequest { user_id } => String::from_str(
                "https://api.vrchat.cloud/api/1/user/",
            ).concat(user_id.as_str()).concat("/friendRequest"),
            Endpoint::AcceptFriend { notification_id } => String::from_str(
                "https://api.vrchat.cloud/api/1/auth/user/notifications/",
            ).concat(notification_id.as_str()).concat("/accept"),
            Endpoint::Notifications => String::from_str(
                "https://api.vrchat.cloud/api/1/auth/user/notifications",
            ),
            Endpoint::Group { group_id } => String::from_str(
                "https://api.vrchat.cloud/api/1/groups/",
            ).concat(group_id.as_str()),
            Endpoint::Instance { instance_id } => String::from_str(
                "https://api.vrchat.cloud/api/1/instances/",
            ).concat(instance_id.as_str()),
            Endpoint::InviteMyself { instance_id } => String::from_str(
                "https://api.vrchat.cloud/api/1/invite/myself/to/",
            ).concat(instance_id.as_str()),
            Endpoint::World { world_id } => String::from_str(
                "https://api.vrchat.cloud/api/1/worlds/",
            ).concat(world_id.as_str()),
            Endpoint::TwoFactorVerify { kind } => String::from_str(
                "https://api.vrchat.cloud/api/1/auth/twofactorauth/",
            ).concat(kind.as_str()).concat("/verify"),
            Endpoint::EmailOtpVerify => String::from_str(
                "https://api.vrchat.cloud/api/1/auth/twofactorauth/emailotp/verify",
            ),
            Endpoint::Favorites => String::from_str("https://api.vrchat.cloud/api/1/favorites"),
            Endpoint::FavoriteFriends => String::from_str(
                "https://api.vrchat.cloud/api/1/favorites?type=friend&n=60",
            ),
        }
    }
}

/// The address of the event stream for a session token.
pub fn pipeline_url(token: &str) -> (r: String)
    ensures
        r@ == "wss://pipeline.vrchat.cloud/?"@ + token@,
{
    String::from_str("wss://pipeline.vrchat.cloud/?").concat(token)
}

/// Whether a friend request is sent or withdrawn.
pub enum FriendRequestMethod {
    Request,
    Delete,
}

impl FriendRequestMethod {
    /// The HTTP method of the friend request: `POST` to send it, `DELETE` to
    /// withdraw it.
    pub fn http_method(&self) -> (r: &'static str)
        ensures
            r@ == match self {
                FriendRequestMethod::Request => "POST"@,
                FriendRequestMethod::Delete => "DELETE"@,
            },
    {
        match self {
            FriendRequestMethod::Request => "POST",
            FriendRequestMethod::Delete => "DELETE",
        }
    }
}

/// The address of each request that names one resource by its id: the
/// API's base, the kind of resource, and the id as it is given.
pub proof fn law_resource_addresses(id: String)
    ensures
        endpoint_url(Endpoint::Instance { instance_id: id }) == "https://api.vrchat.cloud/api/1/instances/"@
            + id@,
        endpoint_url(Endpoint::World { world_id: id }) == "https://api.vrchat.cloud/api/1/worlds/"@
            + id@,
        endpoint_url(Endpoint::User { id }) == "https://api.vrchat.cloud/api/1/users/"@ + id@,
        endpoint_url(Endpoint::Group { group_id: id }) == "https://api.vrchat.cloud/api/1/groups/"@
            + id@,
        endpoint_url(Endpoint::InviteMyself { instance_id: id })
            == "https://api.vrchat.cloud/api/1/invite/myself/to/"@ + id@,
        endpoint_url(Endpoint::FriendStatus { user_id: id }) == "https://api.vrchat.cloud/api/1/user/"@
            + id@ + "/friendStatus"@,
        endpoint_url(Endpoint::FriendRequest { user_id: id })
            == "https://api.vrchat.cloud/api/1/user/"@ + id@ + "/friendRequest"@,
        endpoint_url(Endpoint::AcceptFriend { notification_id: id })
            == "https://api.vrchat.cloud/api/1/auth/user/notifications/"@ + id@ + "/accept"@,
        endpoint_url(Endpoint::TwoFactorVerify { kind: id })
            == "https://api.vrchat.cloud/api/1/auth/twofactorauth/"@ + id@ + "/verify"@,
{
}

/// The addresses of the requests that name no resource.
pub proof fn law_fixed_addresses()
    ensures
        endpoint_url(Endpoint::AuthUser) == "https://api.vrchat.cloud/api/1/auth/user"@,
        endpoint_url(Endpoint::OnlineFriends)
            == "https://api.vrchat.cloud/api/1/auth/user/friends?offline=false"@,
        endpoint_url(Endpoint::Notifications)
            == "https://api.vrchat.cloud/api/1/auth/user/notifications"@,
        endpoint_url(Endpoint::EmailOtpVerify)
            == "https://api.vrchat.cloud/api/1/auth/twofactorauth/emailotp/verify"@,
        endpoint_url(Endpoint::Favorites) == "https://api.vrchat.cloud/api/1/favorites"@,
        endpoint_url(Endpoint::FavoriteFriends)
            == "https://api.vrchat.cloud/api/1/favorites?type=friend&n=60"@,
{
}

/// The address of a page of friends: offline ones or not, fifty from the
/// offset on, the offset written in decimal.
pub proof fn law_friends_page_address(offline: bool, offset: u16)
    ensures
        endpoint_url(Endpoint::FriendsPage { offline, offset })
            == "https://api.vrchat.cloud/api/1/auth/user/friends?offline="@ + (if offline {
            "true"@
        } else {
            "false"@
        }) + "&n=50&offset="@ + decimal(offset as nat),
{
}

} // verus!
