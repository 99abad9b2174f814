use auth_core::account::{NewUser, User};
use auth_core::lifecycle::{
    auth_user, create_user, email_available, login, register, renew_session, update_password,
    username_available, verify_user, VERIFICATION_TOKEN_LEN,
};
use auth_core::session::validate_token;
use auth_core::store::CredentialStore;
use auth_core::Error;

const SECRET: &[u8] = b"test-signing-secret";

fn alice() -> NewUser {
    NewUser {
        username: String::from("alice"),
        password: String::from("pw123"),
        email: String::from("alice@x.com"),
    }
}

#[test]
fn create_then_authenticate_succeeds() {
    let mut store = CredentialStore::new();
    let created = register(&mut store, &alice()).expect("creation should succeed");
    let auth = auth_user(&store, &String::from("alice"), &String::from("pw123"))
        .expect("fresh credentials should authenticate");
    assert_eq!(auth.user_id, created.user_id);
}

#[test]
fn scenario_create_conflict_authenticate() {
    let mut store = CredentialStore::new();

    // create alice/alice@x.com/pw123 -> success (201)
    let created = register(&mut store, &alice()).expect("creation should succeed");

    // same username, different email -> Conflict (409)
    let again = NewUser {
        username: String::from("alice"),
        password: String::from("pw456"),
        email: String::from("alice@elsewhere.com"),
    };
    let conflict = register(&mut store, &again);
    assert_eq!(conflict.map(|c| c.user_id), Err(Error::Conflict));
    assert_eq!(Error::Conflict.status_code(), 409);

    // authenticate with the right password -> a token decodable to alice's id
    let now: i64 = 1_700_000_000;
    let session = login(
        &store,
        &String::from("alice"),
        &String::from("pw123"),
        SECRET,
        now,
    )
    .expect("login should succeed");
    assert_eq!(session.user_id, created.user_id);
    assert_eq!(validate_token(&session.token, SECRET, now), Ok(created.user_id));

    // wrong password -> Unauthorized
    let denied = auth_user(&store, &String::from("alice"), &String::from("wrong"));
    assert_eq!(denied.map(|a| a.user_id), Err(Error::Unauthorized));
}

#[test]
fn duplicate_username_or_email_conflicts() {
    let mut store = CredentialStore::new();
    register(&mut store, &alice()).expect("first creation should succeed");
    assert_eq!(store.len(), 1);

    let same_username = NewUser {
        username: String::from("alice"),
        password: String::from("x"),
        email: String::from("new@x.com"),
    };
    assert_eq!(
        register(&mut store, &same_username).map(|c| c.user_id),
        Err(Error::Conflict)
    );

    let same_email = NewUser {
        username: String::from("bob"),
        password: String::from("x"),
        email: String::from("alice@x.com"),
    };
    assert_eq!(
        register(&mut store, &same_email).map(|c| c.user_id),
        Err(Error::Conflict)
    );
    assert_eq!(store.len(), 1, "exactly one of the racing creates wins");
}

#[test]
fn unknown_username_and_wrong_password_fail_alike() {
    let mut store = CredentialStore::new();
    register(&mut store, &alice()).expect("creation should succeed");
    let unknown = auth_user(&store, &String::from("nobody"), &String::from("pw123"));
    let wrong = auth_user(&store, &String::from("alice"), &String::from("nope"));
    assert_eq!(unknown.map(|a| a.user_id), Err(Error::Unauthorized));
    assert_eq!(wrong.map(|a| a.user_id), Err(Error::Unauthorized));
}

#[test]
fn verification_flow_flips_the_flag_once() {
    let mut store = CredentialStore::new();
    let created = register(&mut store, &alice()).expect("creation should succeed");
    assert_eq!(created.verification_token.len(), VERIFICATION_TOKEN_LEN);

    let before = store.get_user_by_id(created.user_id).expect("account exists");
    assert!(!before.verified);

    // wrong token -> Forbidden, state unchanged
    let wrong = verify_user(&mut store, &String::from("alice"), &String::from("bad-tok"));
    assert_eq!(wrong, Err(Error::Forbidden));
    let still = store.get_user_by_id(created.user_id).expect("account exists");
    assert!(!still.verified);

    // unknown username -> NotFound
    let missing = verify_user(
        &mut store,
        &String::from("nobody"),
        &created.verification_token.clone(),
    );
    assert_eq!(missing, Err(Error::NotFound));

    // correct token -> verified reads back true
    verify_user(
        &mut store,
        &String::from("alice"),
        &created.verification_token.clone(),
    )
    .expect("the stored token should verify");
    let after = store.get_user_by_id(created.user_id).expect("account exists");
    assert!(after.verified);
    assert_eq!(after.username, "alice");
    assert_eq!(after.email, "alice@x.com");
}

#[test]
fn update_password_swaps_the_digest() {
    let mut store = CredentialStore::new();
    let created = register(&mut store, &alice()).expect("creation should succeed");

    update_password(&mut store, created.user_id, &String::from("newpw")).expect("update works");
    let old = auth_user(&store, &String::from("alice"), &String::from("pw123"));
    assert_eq!(old.map(|a| a.user_id), Err(Error::Unauthorized));
    let new = auth_user(&store, &String::from("alice"), &String::from("newpw"))
        .expect("the new password should authenticate");
    assert_eq!(new.user_id, created.user_id);

    // an account that vanished concurrently is an internal error
    assert_eq!(
        update_password(&mut store, created.user_id.wrapping_add(1), &String::from("x")),
        Err(Error::InternalServerError)
    );
}

#[test]
fn delete_removes_the_account_idempotently() {
    let mut store = CredentialStore::new();
    let created = register(&mut store, &alice()).expect("creation should succeed");
    store.delete_user(created.user_id).expect("delete is ok");
    assert_eq!(
        store.get_user_by_id(created.user_id).map(|u| u.id),
        Err(Error::NotFound)
    );
    store.delete_user(created.user_id).expect("deleting an absent account is still ok");
    assert_eq!(store.len(), 0);
}

#[test]
fn availability_probes_reflect_the_store() {
    let mut store = CredentialStore::new();
    assert!(username_available(&store, &String::from("alice")));
    assert!(email_available(&store, &String::from("alice@x.com")));
    register(&mut store, &alice()).expect("creation should succeed");
    assert!(!username_available(&store, &String::from("alice")));
    assert!(!email_available(&store, &String::from("alice@x.com")));
    assert!(username_available(&store, &String::from("bob")));
}

#[test]
fn renew_session_reissues_for_the_same_identity() {
    let mut store = CredentialStore::new();
    register(&mut store, &alice()).expect("creation should succeed");
    let now: i64 = 1_700_000_000;
    let session = login(
        &store,
        &String::from("alice"),
        &String::from("pw123"),
        SECRET,
        now,
    )
    .expect("login should succeed");
    let auth = auth_user(&store, &String::from("alice"), &String::from("pw123")).unwrap();
    let renewed = renew_session(&auth, SECRET, now + 100).expect("renewal should succeed");
    assert_eq!(renewed.user_id, session.user_id);
    assert_eq!(
        validate_token(&renewed.token, SECRET, now + 100),
        Ok(session.user_id)
    );
    assert_ne!(renewed.csrf.server_token, session.csrf.server_token);
}

#[test]
fn login_issues_a_matching_csrf_pair() {
    let mut store = CredentialStore::new();
    register(&mut store, &alice()).expect("creation should succeed");
    let session = login(
        &store,
        &String::from("alice"),
        &String::from("pw123"),
        SECRET,
        1_700_000_000,
    )
    .expect("login should succeed");
    assert_eq!(session.csrf.server_token, session.csrf.client_token);
    assert_eq!(session.csrf.server_token.len(), 32);
}

#[test]
fn crud_create_user_takes_a_prehashed_digest() {
    let mut store = CredentialStore::new();
    let digest = auth_core::password::hash_password(&String::from("pw123")).unwrap();
    let created = create_user(
        &mut store,
        &String::from("carol"),
        &String::from("carol@x.com"),
        &digest,
    )
    .expect("creation should succeed");
    let auth = auth_user(&store, &String::from("carol"), &String::from("pw123"))
        .expect("the digest should verify");
    assert_eq!(auth.user_id, created.user_id);
    assert_eq!(
        create_user(
            &mut store,
            &String::from("carol"),
            &String::from("other@x.com"),
            &digest,
        )
        .map(|c| c.user_id),
        Err(Error::Conflict)
    );
}

#[test]
fn error_taxonomy_maps_to_http_statuses() {
    assert_eq!(Error::Unauthorized.status_code(), 401);
    assert_eq!(Error::Forbidden.status_code(), 403);
    assert_eq!(Error::NotFound.status_code(), 404);
    assert_eq!(Error::Conflict.status_code(), 409);
    assert_eq!(Error::InternalServerError.status_code(), 500);
    assert_eq!(Error::Unauthorized.message(), "authentication required");
}

#[test]
fn default_user_is_the_nil_account() {
    let u = User::default();
    assert_eq!(u.id, 0);
    assert_eq!(u.username, "");
    assert_eq!(u.email, "");
    assert!(!u.verified);
}
