//! Signing credential lookup: resolving a local account's private key.
//!
//! The backing store hands the library its user and signing-key rows as
//! plain records; the join between them, and the distinction between a
//! missing user and a user without a provisioned key, is verified here.
//! One parameterized lookup serves the three entry points — by numeric
//! user id, by username, by federation URL — through a typed selector.

use vstd::prelude::*;

use crate::text::str_eq;

verus! {

/// Failure of a signing credential lookup.
#[derive(Clone, Debug, PartialEq, Eq)]
pub enum LookupError {
    /// No user record matches the selector.
    NotFound,
    /// The user exists but owns no signing key pair.
    NoKeyProvisioned,
}

/// A local user row, as far as credential lookup reads it.
#[derive(Debug, PartialEq, Eq)]
pub struct UserRecord {
    pub id: u64,
    pub name: String,
    pub federation_id: String,
}

/// The key pair provisioned for one local user. Exactly one user owns
/// each pair. The private half must never be logged or cached beyond the
/// signing operation it was fetched for.
#[derive(Debug, PartialEq, Eq)]
pub struct SigningKeyPair {
    pub user_id: u64,
    pub public_key_pem: String,
    pub private_key_pem: String,
}

/// The three ways a caller can name the user whose key it needs.
#[derive(Clone, Debug, PartialEq, Eq)]
pub enum KeySelector {
    ByUserId(u64),
    ByUsername(String),
    ByActorUrl(String),
}

/// Whether a user row is the one a selector names.
pub open spec fn selector_matches(sel: KeySelector, u: UserRecord) -> bool {
    match sel {
        KeySelector::ByUserId(id) => u.id == id,
        KeySelector::ByUsername(name) => u.name@ == name@,
        KeySelector::ByActorUrl(url) => u.federation_id@ == url@,
    }
}

/// The first user row matching the selector, if any.
pub open spec fn find_user(users: Seq<UserRecord>, sel: KeySelector) -> Option<UserRecord>
    decreases users.len(),
{
    if users.len() == 0 {
        None
    } else if selector_matches(sel, users[0]) {
        Some(users[0])
    } else {
        find_user(users.drop_first(), sel)
    }
}

/// The first key row owned by the given user id, if any.
pub open spec fn find_key(keys: Seq<SigningKeyPair>, user_id: u64) -> Option<SigningKeyPair>
    decreases keys.len(),
{
    if keys.len() == 0 {
        None
    } else if keys[0].user_id == user_id {
        Some(keys[0])
    } else {
        find_key(keys.drop_first(), user_id)
    }
}

/// What a credential lookup over the given rows must return: the private
/// key of the first key row of the first matching user, `NotFound` when
/// no user matches, `NoKeyProvisioned` when one does but owns no key.
pub open spec fn lookup_outcome(
    users: Seq<UserRecord>,
    keys: Seq<SigningKeyPair>,
    sel: KeySelector,
    r: Result<String, LookupError>,
) -> bool {
    match find_user(users, sel) {
        None => r matches Err(LookupError::NotFound),
        Some(u) => match find_key(keys, u.id) {
            None => r matches Err(LookupError::NoKeyProvisioned),
            Some(k) => r matches Ok(pem) && pem@ == k.private_key_pem@,
        },
    }
}

fn selector_matches_exec(sel: &KeySelector, u: &UserRecord) -> (r: bool)
    ensures
        r == selector_matches(*sel, *u),
{
    match sel {
        KeySelector::ByUserId(id) => u.id == *id,
        KeySelector::ByUsername(name) => str_eq(u.name.as_str(), name.as_str()),
        KeySelector::ByActorUrl(url) => str_eq(u.federation_id.as_str(), url.as_str()),
    }
}

fn find_user_exec<'a>(users: &'a Vec<UserRecord>, sel: &KeySelector) -> (r: Option<
    &'a UserRecord,
>)
    ensures
        match r {
            Some(u) => find_user(users@, *sel) == Some(*u),
            None => find_user(users@, *sel) is None,
        },
{
    let n = users.len();
    proof {
        assert(users@.skip(0) =~= users@);
    }
    let mut i: usize = 0;
    while i < n
        invariant
            n == users@.len(),
            0 <= i <= n,
            find_user(users@, *sel) == find_user(users@.skip(i as int), *sel),
        decreases n - i,
    {
        proof {
            assert(users@.skip(i as int)[0] == users@[i as int]);
            assert(users@.skip(i as int).drop_first() =~= users@.skip(i + 1));
        }
        if selector_matches_exec(sel, &users[i]) {
            return Some(&users[i]);
        }
        i += 1;
    }
    None
}

fn find_key_exec<'a>(keys: &'a Vec<SigningKeyPair>, user_id: u64) -> (r: Option<
    &'a SigningKeyPair,
>)
    ensures
        match r {
            Some(k) => find_key(keys@, user_id) == Some(*k),
            None => find_key(keys@, user_id) is None,
        },
{
    let n = keys.len();
    proof {
        assert(keys@.skip(0) =~= keys@);
    }
    let mut i: usize = 0;
    while i < n
        invariant
            n == keys@.len(),
            0 <= i <= n,
            find_key(keys@, user_id) == find_key(keys@.skip(i as int), user_id),
        decreases n - i,
    {
        proof {
            assert(keys@.skip(i as int)[0] == keys@[i as int]);
            assert(keys@.skip(i as int).drop_first() =~= keys@.skip(i + 1));
        }
        if keys[i].user_id == user_id {
            return Some(&keys[i]);
        }
        i += 1;
    }
    None
}

/// Resolves the private key the selector names: the join of the user
/// rows with the signing-key rows.
pub fn lookup_private_key(
    users: &Vec<UserRecord>,
    keys: &Vec<SigningKeyPair>,
    sel: &KeySelector,
) -> (r: Result<String, LookupError>)
    ensures
        lookup_outcome(users@, keys@, *sel, r),
{
    let user = match find_user_exec(users, sel) {
        Some(u) => u,
        None => return Err(LookupError::NotFound),
    };
    match find_key_exec(keys, user.id) {
        Some(k) => Ok(k.private_key_pem.clone()),
        None => Err(LookupError::NoKeyProvisioned),
    }
}

/// Resolves a local user's federation id together with its private key,
/// as outbound delivery needs both to sign a request.
pub fn local_user_credentials(
    users: &Vec<UserRecord>,
    keys: &Vec<SigningKeyPair>,
    user_id: u64,
) -> (r: Result<(String, String), LookupError>)
    ensures
        match find_user(users@, KeySelector::ByUserId(user_id)) {
            None => r matches Err(LookupError::NotFound),
            Some(u) => match find_key(keys@, u.id) {
                None => r matches Err(LookupError::NoKeyProvisioned),
                Some(k) => r matches Ok(c) && c.0@ == u.federation_id@ && c.1@
                    == k.private_key_pem@,
            },
        },
{
    let sel = KeySelector::ByUserId(user_id);
    let user = match find_user_exec(users, &sel) {
        Some(u) => u,
        None => return Err(LookupError::NotFound),
    };
    match find_key_exec(keys, user.id) {
        Some(k) => Ok((user.federation_id.clone(), k.private_key_pem.clone())),
        None => Err(LookupError::NoKeyProvisioned),
    }
}

} // verus!
