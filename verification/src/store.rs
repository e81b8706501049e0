use vstd::prelude::*;

use crate::text::{is_text, split_once, split_once_at};

verus! {

/// A stored credential: the key that clients authenticate with, the VRChat
/// token it stands for, and whether the account shows as "ask me".
pub struct Data {
    pub auth: String,
    pub token: String,
    pub askme: bool,
}

impl Clone for Data {
    fn clone(&self) -> (r: Data)
        ensures
            r == *self,
    {
        Data { auth: self.auth.clone(), token: self.token.clone(), askme: self.askme }
    }
}

/// Why a request on the stored credentials failed.
#[derive(Debug, PartialEq, Eq, Structural)]
pub enum StoreError {
    /// The request does not have the expected shape.
    InvalidRequest,
    /// No stored credential has the given key.
    InvalidAuth,
}

impl StoreError {
    /// The message sent back for this error.
    pub fn message(&self) -> (r: &'static str)
        ensures
            r@ == match self {
                StoreError::InvalidRequest => "リクエストが不正です。"@,
                StoreError::InvalidAuth => "認証情報が不正です。"@,
            },
    {
        match self {
            StoreError::InvalidRequest => "リクエストが不正です。",
            StoreError::InvalidAuth => "認証情報が不正です。",
        }
    }
}

/// `i` is the first stored credential with the key `auth`.
pub open spec fn is_first_with_auth(store: Seq<Data>, auth: Seq<char>, i: int) -> bool {
    &&& 0 <= i < store.len()
    &&& store[i].auth@ == auth
    &&& forall|j: int| 0 <= j < i ==> (#[trigger] store[j]).auth@ != auth
}

/// Some stored credential has the key `auth`.
pub open spec fn has_auth(store: Seq<Data>, auth: Seq<char>) -> bool {
    exists|i: int| 0 <= i < store.len() && (#[trigger] store[i]).auth@ == auth
}

/// The index of the first stored credential with the key `auth`.
pub open spec fn index_of_auth(store: Seq<Data>, auth: Seq<char>) -> int {
    choose|i: int| is_first_with_auth(store, auth, i)
}

proof fn lemma_first_auth_unique(store: Seq<Data>, auth: Seq<char>, i: int)
    requires
        is_first_with_auth(store, auth, i),
    ensures
        index_of_auth(store, auth) == i,
        has_auth(store, auth),
{
    let k = index_of_auth(store, auth);
    if k < i {
        assert(store[k].auth@ != auth);
    } else if k > i {
        assert(store[i].auth@ != auth);
    }
}

/// The index of the first stored credential with the key `auth`.
pub fn find_auth(store: &Vec<Data>, auth: &str) -> (r: Option<usize>)
    ensures
        match r {
            Some(i) => is_first_with_auth(store@, auth@, i as int) && index_of_auth(store@, auth@)
                == i,
            None => !has_auth(store@, auth@),
        },
{
    let mut i: usize = 0;
    while i < store.len()
        invariant
            0 <= i <= store.len(),
            forall|j: int| 0 <= j < i ==> (#[trigger] store@[j]).auth@ != auth@,
        decreases store.len() - i,
    {
        if is_text(store[i].auth.as_str(), auth) {
            proof {
                lemma_first_auth_unique(store@, auth@, i as int);
            }
            return Some(i);
        }
        i = i + 1;
    }
    None
}

/// Whether the account with the key `req` shows as "ask me" (`/check_askme`).
pub fn check(store: &Vec<Data>, req: &str) -> (r: Result<bool, StoreError>)
    ensures
        match r {
            Ok(b) => has_auth(store@, req@) && b == store@[index_of_auth(store@, req@)].askme,
            Err(e) => !has_auth(store@, req@) && e == StoreError::InvalidAuth,
        },
{
    match find_auth(store, req) {
        Some(i) => Ok(store[i].askme),
        None => Err(StoreError::InvalidAuth),
    }
}

/// `store` with the "ask me" flag of the credential at `i` set to `b`.
pub open spec fn with_askme(store: Seq<Data>, i: int, b: bool) -> Seq<Data> {
    store.update(i, Data { askme: b, ..store[i] })
}

/// Sets the "ask me" flag of the account named in `auth:value` to whether
/// `value` reads `true` (`/askme`), and gives the new flag.
pub fn toggle(store: &mut Vec<Data>, req: &str) -> (r: Result<bool, StoreError>)
    ensures
        match split_once_at(req@, ':') {
            None => r == Err::<bool, StoreError>(StoreError::InvalidRequest) && final(store)@ == old(
                store,
            )@,
            Some((auth, value)) => if has_auth(old(store)@, auth) {
                r == Ok::<bool, StoreError>(value == "true"@) && final(store)@ == with_askme(
                    old(store)@,
                    index_of_auth(old(store)@, auth),
                    value == "true"@,
                )
            } else {
                r == Err::<bool, StoreError>(StoreError::InvalidAuth) && final(store)@ == old(
                    store,
                )@
            },
        },
{
    let (auth, value) = match split_once(req, ':') {
        Some(p) => p,
        None => return Err(StoreError::InvalidRequest),
    };
    let b = is_text(value.as_str(), "true");
    match find_auth(store, auth.as_str()) {
        Some(i) => {
            let d = Data { auth: store[i].auth.clone(), token: store[i].token.clone(), askme: b };
            store.set(i, d);
            Ok(b)
        },
        None => Err(StoreError::InvalidAuth),
    }
}

/// `store` with the token of the credential at `i` replaced by `token`.
pub open spec fn with_token(store: Seq<Data>, i: int, token: String) -> Seq<Data> {
    store.update(i, Data { token, ..store[i] })
}

/// Replaces the token of the credential `auth` after a successful mail
/// verification.
pub fn update(store: &mut Vec<Data>, token: &str, auth: &str) -> (r: Result<(), StoreError>)
    ensures
        if has_auth(old(store)@, auth@) {
            r is Ok && final(store)@.len() == old(store)@.len() && ({
                let i = index_of_auth(old(store)@, auth@);
                &&& final(store)@[i].token@ == token@
                &&& final(store)@[i].auth == old(store)@[i].auth
                &&& final(store)@[i].askme == old(store)@[i].askme
                &&& forall|j: int|
                    0 <= j < old(store)@.len() && j != i ==> #[trigger] final(store)@[j] == old(
                        store,
                    )@[j]
            })
        } else {
            r == Err::<(), StoreError>(StoreError::InvalidAuth) && final(store)@ == old(store)@
        },
{
    match find_auth(store, auth) {
        Some(i) => {
            let d = Data {
                auth: store[i].auth.clone(),
                token: String::from_str(token),
                askme: store[i].askme,
            };
            store.set(i, d);
            Ok(())
        },
        None => Err(StoreError::InvalidAuth),
    }
}

/// Stores a new credential `auth` for `token` after a successful mail
/// verification, not shown as "ask me".
pub fn add(store: &mut Vec<Data>, token: &str, auth: &str)
    ensures
        final(store)@.len() == old(store)@.len() + 1,
        final(store)@.take(old(store)@.len() as int) == old(store)@,
        final(store)@.last().auth@ == auth@,
        final(store)@.last().token@ == token@,
        !final(store)@.last().askme,
{
    store.push(Data { auth: String::from_str(auth), token: String::from_str(token), askme: false });
    proof {
        assert(final(store)@.take(old(store)@.len() as int) =~= old(store)@);
    }
}

/// A flag set through `toggle` is what `check` reads afterwards.
pub proof fn law_toggle_then_check(store: Seq<Data>, i: int, b: bool, auth: Seq<char>)
    requires
        is_first_with_auth(store, auth, i),
    ensures
        has_auth(with_askme(store, i, b), auth),
        with_askme(store, i, b)[index_of_auth(with_askme(store, i, b), auth)].askme == b,
{
    let s2 = with_askme(store, i, b);
    assert(is_first_with_auth(s2, auth, i)) by {
        assert forall|j: int| 0 <= j < i implies (#[trigger] s2[j]).auth@ != auth by {
            assert(s2[j] == store[j]);
        }
    }
    lemma_first_auth_unique(s2, auth, i);
}

/// A credential added under a key that no other credential has is the one
/// found under that key.
pub proof fn law_added_credential_found(store: Seq<Data>, d: Data)
    requires
        !has_auth(store, d.auth@),
    ensures
        has_auth(store.push(d), d.auth@),
        store.push(d)[index_of_auth(store.push(d), d.auth@)] == d,
{
    let s2 = store.push(d);
    assert(is_first_with_auth(s2, d.auth@, store.len() as int)) by {
        assert forall|j: int| 0 <= j < store.len() implies (#[trigger] s2[j]).auth@ != d.auth@ by {
            assert(s2[j] == store[j]);
        }
    }
    lemma_first_auth_unique(s2, d.auth@, store.len() as int);
}

} // verus!
