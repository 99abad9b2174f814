use vstd::prelude::*;

use crate::account::{Account, AccountView, NewUser};
use crate::csrf::{csrf_expiry, issue_csrf_pair, CsrfPair, CSRF_TOKEN_LEN};
use crate::error::Error;
use crate::password::{digest_matches, hash_password, validate_password};
use crate::session::{jwt_claims_of, session_expiry, AuthUser};
use crate::store::{
    account_of, account_of_id, has_email, has_id, has_username, id_index, lemma_username_index,
    store_wf, username_index, CredentialStore,
};
use crate::utils::{is_alnum, random_string};

verus! {

/// Length of a verification token, in characters.
pub const VERIFICATION_TOKEN_LEN: usize = 8;

/// Relies on `Uuid::new_v4`: a freshly generated random 128-bit identifier.
/// Nothing can be promised of its value.
#[verifier::external_body]
fn fresh_id() -> (r: u128) {
    uuid::Uuid::new_v4().as_u128()
}

/// What a successful account creation hands back: the new identifier, and
/// the verification token that the notifier must deliver to the new email
/// address, embedded in a link of the form `<base>/<username>/<token>`.
pub struct CreatedUser {
    pub user_id: u128,
    pub verification_token: String,
}

/// Creates a new unverified account from an already-hashed password: draws a
/// fresh identifier and verification token, and inserts the record. A taken
/// username or email is a `Conflict`, and the store is left unchanged. The
/// one other failure is the drawn identifier colliding with an existing
/// account, an internal error that a non-empty store alone makes possible:
/// into an empty store, creation always succeeds.
pub fn create_user(
    store: &mut CredentialStore,
    username: &String,
    email: &String,
    password_hash: &String,
) -> (r: Result<CreatedUser, Error>)
    requires
        store_wf(old(store)@),
    ensures
        store_wf(final(store)@),
        r == Err::<CreatedUser, Error>(Error::Conflict) <==> has_username(
            old(store)@,
            username@,
        ) || has_email(old(store)@, email@),
        r == Err::<CreatedUser, Error>(Error::InternalServerError) ==> old(store)@.len() > 0,
        old(store)@.len() == 0 ==> r is Ok,
        r matches Err(e) ==> final(store)@ == old(store)@ && (e == Error::Conflict || e
            == Error::InternalServerError),
        r matches Ok(cu) ==> {
            &&& !has_id(old(store)@, cu.user_id)
            &&& cu.verification_token@.len() == VERIFICATION_TOKEN_LEN
            &&& is_alnum(cu.verification_token@)
            &&& final(store)@ == old(store)@.push(
                AccountView {
                    id: cu.user_id,
                    username: username@,
                    email: email@,
                    password_hash: password_hash@,
                    verification_token: cu.verification_token@,
                    verified: false,
                },
            )
        },
{
    let id = fresh_id();
    let verification_token = random_string(VERIFICATION_TOKEN_LEN);
    let account = Account {
        id,
        username: username.clone(),
        email: email.clone(),
        password_hash: password_hash.clone(),
        verification_token: verification_token.clone(),
        verified: false,
    };
    let ghost av = account@;
    match store.insert(account) {
        Ok(()) => Ok(CreatedUser { user_id: id, verification_token }),
        Err(e) => {
            proof {
                if e == Error::InternalServerError {
                    assert(has_id(old(store)@, av.id));
                    let i = choose|i: int|
                        0 <= i < old(store)@.len() && (#[trigger] old(store)@[i].id) == av.id;
                    assert(old(store)@.len() > 0);
                }
            }
            Err(e)
        },
    }
}

/// The full signup flow: rejects a taken username or email with `Conflict`,
/// hashes the password, and persists a new unverified account whose stored
/// digest verifies against the given password. One verification email per
/// successful call is owed to the notifier, with the returned token.
pub fn register(store: &mut CredentialStore, new_user: &NewUser) -> (r: Result<CreatedUser, Error>)
    requires
        store_wf(old(store)@),
    ensures
        store_wf(final(store)@),
        r == Err::<CreatedUser, Error>(Error::Conflict) <==> has_username(
            old(store)@,
            new_user.username@,
        ) || has_email(old(store)@, new_user.email@),
        r matches Err(e) ==> final(store)@ == old(store)@ && (e == Error::Conflict || e
            == Error::InternalServerError),
        r matches Ok(cu) ==> {
            &&& !has_id(old(store)@, cu.user_id)
            &&& cu.verification_token@.len() == VERIFICATION_TOKEN_LEN
            &&& is_alnum(cu.verification_token@)
            &&& final(store)@.len() == old(store)@.len() + 1
            &&& final(store)@ == old(store)@.push(final(store)@.last())
            &&& final(store)@.last().id == cu.user_id
            &&& final(store)@.last().username == new_user.username@
            &&& final(store)@.last().email == new_user.email@
            &&& digest_matches(new_user.password@, final(store)@.last().password_hash)
            &&& final(store)@.last().verification_token == cu.verification_token@
            &&& !final(store)@.last().verified
        },
{
    if store.check_username(&new_user.username) || store.check_email(&new_user.email) {
        return Err(Error::Conflict);
    }
    let password_hash = match hash_password(&new_user.password) {
        Ok(digest) => digest,
        Err(e) => {
            return Err(e);
        },
    };
    create_user(store, &new_user.username, &new_user.email, &password_hash)
}

/// Whether `username` with `password` authenticates against the store: the
/// username must be present and the password must verify against its stored
/// digest.
pub open spec fn can_authenticate(
    s: Seq<AccountView>,
    username: Seq<char>,
    password: Seq<char>,
) -> bool {
    has_username(s, username) && digest_matches(password, account_of(s, username).password_hash)
}

/// Credential check: an unknown username and a wrong password yield the
/// identical `Unauthorized` failure, so the response does not reveal which
/// of the two it was. On success the authenticated identity is the unique
/// account that carries the username.
pub fn auth_user(store: &CredentialStore, username: &String, password: &String) -> (r: Result<
    AuthUser,
    Error,
>)
    requires
        store_wf(store@),
    ensures
        r is Ok <==> can_authenticate(store@, username@, password@),
        r matches Ok(au) ==> au.user_id == account_of(store@, username@).id,
        r matches Err(e) ==> e == Error::Unauthorized,
{
    let (id, password_hash) = match store.get_hash(username) {
        Ok(p) => p,
        Err(_) => {
            return Err(Error::Unauthorized);
        },
    };
    match validate_password(password.as_str(), password_hash.as_str()) {
        Ok(_) => Ok(AuthUser { user_id: id }),
        Err(_) => Err(Error::Unauthorized),
    }
}

/// Consumes a verification token: fails with `NotFound` for an unknown
/// username and with `Forbidden` for a mismatched token, leaving the store
/// unchanged; on the exact match the account's verified flag flips to true
/// and everything else is kept.
pub fn verify_user(store: &mut CredentialStore, username: &String, token: &String) -> (r: Result<
    (),
    Error,
>)
    requires
        store_wf(old(store)@),
    ensures
        store_wf(final(store)@),
        !has_username(old(store)@, username@) ==> r == Err::<(), Error>(Error::NotFound) && final(store)@ == old(store)@,
        has_username(old(store)@, username@) && token@ != account_of(
            old(store)@,
            username@,
        ).verification_token ==> r == Err::<(), Error>(Error::Forbidden) && final(store)@ == old(store)@,
        has_username(old(store)@, username@) && token@ == account_of(
            old(store)@,
            username@,
        ).verification_token ==> r == Ok::<(), Error>(()) && final(store)@ == old(store)@.update(
            username_index(old(store)@, username@),
            AccountView { verified: true, ..account_of(old(store)@, username@) },
        ),
{
    let stored = match store.find_verification_token(username) {
        Ok(t) => t,
        Err(_) => {
            return Err(Error::NotFound);
        },
    };
    if stored.eq(token) {
        store.set_verified(username)
    } else {
        Err(Error::Forbidden)
    }
}

/// Replaces an account's password: the new password is hashed afresh and the
/// stored digest swapped. An account that vanished concurrently (zero rows
/// affected), like a hashing failure, is an internal error.
pub fn update_password(store: &mut CredentialStore, user_id: u128, password: &String) -> (r: Result<
    (),
    Error,
>)
    requires
        store_wf(old(store)@),
    ensures
        store_wf(final(store)@),
        r matches Err(e) ==> e == Error::InternalServerError && final(store)@ == old(store)@,
        !has_id(old(store)@, user_id) ==> r is Err,
        r matches Ok(()) ==> {
            &&& has_id(old(store)@, user_id)
            &&& digest_matches(
                password@,
                final(store)@[id_index(old(store)@, user_id)].password_hash,
            )
            &&& final(store)@ == old(store)@.update(
                id_index(old(store)@, user_id),
                AccountView {
                    password_hash: final(store)@[id_index(old(store)@, user_id)].password_hash,
                    ..account_of_id(old(store)@, user_id)
                },
            )
        },
{
    let password_hash = match hash_password(password) {
        Ok(digest) => digest,
        Err(_) => {
            return Err(Error::InternalServerError);
        },
    };
    if store.update_password_hash(user_id, password_hash) {
        Ok(())
    } else {
        Err(Error::InternalServerError)
    }
}

/// Advisory existence probe for signup forms: true when no account carries
/// the username. Uniqueness is still enforced at insert time, never by this
/// probe alone.
pub fn username_available(store: &CredentialStore, username: &String) -> (r: bool)
    requires
        store_wf(store@),
    ensures
        r == !has_username(store@, username@),
{
    !store.check_username(username)
}

/// Advisory existence probe for signup forms: true when no account carries
/// the email.
pub fn email_available(store: &CredentialStore, email: &String) -> (r: bool)
    requires
        store_wf(store@),
    ensures
        r == !has_email(store@, email@),
{
    !store.check_email(email)
}

/// What a successful login hands back: the identity, a signed session token,
/// and a fresh CSRF pair for the transport to set.
pub struct Session {
    pub user_id: u128,
    pub token: String,
    pub csrf: CsrfPair,
}

/// The login flow: credential check, then session issuance. Bad credentials
/// are `Unauthorized`; good credentials always yield a session whose token's
/// claims are exactly `{the account's identifier, now + 7 days}`.
pub fn login(
    store: &CredentialStore,
    username: &String,
    password: &String,
    secret: &[u8],
    now: i64,
) -> (r: Result<Session, Error>)
    requires
        store_wf(store@),
    ensures
        r is Ok <==> can_authenticate(store@, username@, password@),
        r matches Err(e) ==> e == Error::Unauthorized,
        r matches Ok(sess) ==> {
            &&& can_authenticate(store@, username@, password@)
            &&& sess.user_id == account_of(store@, username@).id
            &&& jwt_claims_of(sess.token@, secret@) == Some((sess.user_id, session_expiry(now)))
            &&& sess.csrf.server_token@ == sess.csrf.client_token@
            &&& sess.csrf.server_token@.len() == CSRF_TOKEN_LEN
            &&& sess.csrf.expires_at == csrf_expiry(now)
        },
{
    let auth = match auth_user(store, username, password) {
        Ok(au) => au,
        Err(e) => {
            return Err(e);
        },
    };
    let token = match auth.to_jwt(secret, now) {
        Ok(t) => t,
        Err(e) => {
            return Err(e);
        },
    };
    let csrf = issue_csrf_pair(now);
    Ok(Session { user_id: auth.user_id, token, csrf })
}

/// Session renewal for an already-authenticated identity: always succeeds,
/// with a fresh token carrying claims `{identity, now + 7 days}` and a fresh
/// CSRF pair.
pub fn renew_session(user: &AuthUser, secret: &[u8], now: i64) -> (r: Result<Session, Error>)
    ensures
        r is Ok,
        r matches Ok(sess) ==> {
            &&& sess.user_id == user.user_id
            &&& jwt_claims_of(sess.token@, secret@) == Some((sess.user_id, session_expiry(now)))
            &&& sess.csrf.server_token@ == sess.csrf.client_token@
            &&& sess.csrf.server_token@.len() == CSRF_TOKEN_LEN
            &&& sess.csrf.expires_at == csrf_expiry(now)
        },
{
    let token = match user.to_jwt(secret, now) {
        Ok(t) => t,
        Err(e) => {
            return Err(e);
        },
    };
    let csrf = issue_csrf_pair(now);
    Ok(Session { user_id: user.user_id, token, csrf })
}


/// Law: an account just created is found by its username, and its password
/// verifies, so `auth_user` on the same credentials succeeds and returns the
/// new account's identifier (by `auth_user`'s own contract).
pub proof fn lemma_create_then_authenticate(
    pre: Seq<AccountView>,
    post: Seq<AccountView>,
    a: AccountView,
    password: Seq<char>,
)
    requires
        store_wf(pre),
        !has_username(pre, a.username),
        post == pre.push(a),
        digest_matches(password, a.password_hash),
    ensures
        can_authenticate(post, a.username, password),
        account_of(post, a.username) == a,
{
    assert(post[post.len() - 1] == a);
    assert(has_username(post, a.username));
    let j = username_index(post, a.username);
    assert(0 <= j < post.len() && post[j].username == a.username);
    if j < post.len() - 1 {
        assert(pre[j] == post[j]);
        assert(has_username(pre, a.username));
    }
}

/// Law: once one create for a username and email has succeeded, both are
/// present, so a second create with either must fail with `Conflict` (by
/// `create_user`'s and `register`'s own contracts) -- exactly one of two
/// racing creates can win.
pub proof fn lemma_created_identity_taken(
    pre: Seq<AccountView>,
    post: Seq<AccountView>,
    a: AccountView,
)
    requires
        post == pre.push(a),
    ensures
        has_username(post, a.username),
        has_email(post, a.email),
{
    assert(post[post.len() - 1] == a);
}

/// Law: after a successful verification the account reads back with
/// `verified` true under both its username and its identifier, its other
/// fields kept, and every other account untouched; verification never
/// transitions the flag back.
pub proof fn lemma_verify_then_lookup(
    pre: Seq<AccountView>,
    post: Seq<AccountView>,
    username: Seq<char>,
)
    requires
        store_wf(pre),
        has_username(pre, username),
        post == pre.update(
            username_index(pre, username),
            AccountView { verified: true, ..account_of(pre, username) },
        ),
    ensures
        store_wf(post),
        has_username(post, username),
        account_of(post, username) == (AccountView {
            verified: true,
            ..account_of(pre, username)
        }),
        has_id(post, account_of(pre, username).id),
        account_of_id(post, account_of(pre, username).id) == (AccountView {
            verified: true,
            ..account_of(pre, username)
        }),
        forall|j: int|
            0 <= j < pre.len() && j != username_index(pre, username) ==> post[j] == pre[j],
{
    let i = username_index(pre, username);
    assert(0 <= i < pre.len() && pre[i].username == username);
    let a = AccountView { verified: true, ..account_of(pre, username) };
    crate::store::lemma_wf_update(pre, i, a);
    lemma_username_index(post, username, i);
    crate::store::lemma_id_index(post, account_of(pre, username).id, i);
}


/// Law: the verified flag only ever transitions false to true. Every store
/// change the lifecycle makes is an append of an unverified account, an
/// update that keeps or sets the flag, or a removal; none clears it.
pub proof fn lemma_verified_monotonic(
    pre: Seq<AccountView>,
    post: Seq<AccountView>,
    i: int,
    a: AccountView,
)
    requires
        0 <= i < pre.len(),
        post == pre.update(i, a),
        pre[i].verified ==> a.verified,
    ensures
        forall|j: int| 0 <= j < post.len() && pre[j].verified ==> (#[trigger] post[j]).verified,
{
}

} // verus!
