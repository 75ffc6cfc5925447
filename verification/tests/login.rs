use session_auth::auth::{
    check_password_digest, login_with_keys, session_lifetime, sweep_expired, verify, issue,
};
use session_auth::digest::hash_from_string;
use session_auth::token::generate;
use session_auth::{login, Account, ApiError, LoginData, Mutation, Session, Store};

fn account(id: u64, username: &str, password: &str, salt: &str) -> Account {
    Account {
        id,
        username: username.to_string(),
        salt: salt.to_string(),
        password_hash: hash_from_string(format!("{}{}", password, salt)),
        refresh_token: None,
    }
}

fn session(account_id: u64, token: &str, expire_at: u64) -> Session {
    Session { account_id, session_token: token.to_string(), expire_at }
}

fn request(username: &str, pw: &str, remember: bool) -> LoginData {
    LoginData { username: username.to_string(), pw: pw.to_string(), remember }
}

fn alice_and_bob(sessions: Vec<Session>) -> Store {
    Store::from_rows(
        vec![account(1, "alice", "secret1", "s1"), account(2, "bob", "hunter2", "s2")],
        sessions,
    )
    .unwrap()
}

#[test]
fn test_login() {
    let mut store =
        Store::from_rows(vec![account(1, "my_id", "my_pw", "salt")], Vec::new()).unwrap();
    let map = LoginData { username: "my_id".to_string(), pw: "my_pw".to_string(), remember: true };
    let response = login(map, &mut store, 1_700_000_000);
    assert!(response.is_ok());
}

#[test]
fn the_stored_digest_is_of_password_then_salt() {
    let alice = account(1, "alice", "secret1", "s1");
    assert_eq!(
        alice.password_hash,
        "a906ad35c69cbc0e63afd7144343df41583de5f87dff9772b5849a86c705ec60"
    );
}

#[test]
fn verify_accepts_the_password_of_the_account() {
    let store = alice_and_bob(Vec::new());
    assert_eq!(verify(&store, "alice", "secret1"), Ok(1));
    assert_eq!(verify(&store, "bob", "hunter2"), Ok(2));
}

#[test]
fn verify_refuses_a_wrong_password_and_an_unknown_user_alike() {
    let store = alice_and_bob(Vec::new());
    assert_eq!(verify(&store, "alice", "wrong"), Err(ApiError::NotAuthorized));
    assert_eq!(verify(&store, "alice", "hunter2"), Err(ApiError::NotAuthorized));
    assert_eq!(verify(&store, "alice", ""), Err(ApiError::NotAuthorized));
    assert_eq!(verify(&store, "carol", "secret1"), Err(ApiError::NotAuthorized));
    assert_eq!(verify(&store, "", ""), Err(ApiError::NotAuthorized));
}

#[test]
fn verify_hashes_the_password_before_the_salt() {
    let store = alice_and_bob(Vec::new());
    assert_eq!(verify(&store, "alice", "secret1s"), Err(ApiError::NotAuthorized));
    let swapped = Store::from_rows(
        vec![Account {
            id: 1,
            username: "alice".to_string(),
            salt: "s1".to_string(),
            password_hash: hash_from_string("s1secret1".to_string()),
            refresh_token: None,
        }],
        Vec::new(),
    )
    .unwrap();
    assert_eq!(verify(&swapped, "alice", "secret1"), Err(ApiError::NotAuthorized));
}

#[test]
fn verify_does_not_take_the_stored_digest_for_the_password() {
    let store = alice_and_bob(Vec::new());
    let digest = hash_from_string("secret1s1".to_string());
    assert_eq!(verify(&store, "alice", &digest), Err(ApiError::NotAuthorized));
}

#[test]
fn a_digest_is_checked_against_the_stored_one() {
    let alice = account(1, "alice", "secret1", "s1");
    let right = hash_from_string("secret1s1".to_string());
    let wrong = hash_from_string("secret2s1".to_string());
    assert_eq!(check_password_digest(&alice, &right), Ok(1));
    assert_eq!(check_password_digest(&alice, &wrong), Err(ApiError::NotAuthorized));
    assert_eq!(check_password_digest(&alice, &String::new()), Err(ApiError::NotAuthorized));
}

#[test]
fn sessions_live_thirty_minutes_or_seven_days() {
    assert_eq!(session_lifetime(false), 1800);
    assert_eq!(session_lifetime(true), 604800);
}

#[test]
fn alice_logs_in_and_a_wrong_password_does_not() {
    let mut store = alice_and_bob(Vec::new());
    let now = 1_000_000;
    let response = login(request("alice", "secret1", false), &mut store, now).unwrap();
    assert_eq!(store.sessions().len(), 1);
    assert_eq!(store.sessions()[0], session(1, &response.session, now + 1800));

    let refused = login(request("alice", "wrong", false), &mut store, now);
    assert_eq!(refused, Err(ApiError::NotAuthorized));
    assert_eq!(store.sessions().len(), 1);
}

#[test]
fn a_login_stores_the_refresh_token_that_it_returns() {
    let mut store = alice_and_bob(Vec::new());
    let response = login(request("alice", "secret1", true), &mut store, 50).unwrap();
    let stored = store.find_account_by_username("alice").unwrap();
    assert_eq!(stored.refresh_token, Some(response.refresh_token.clone()));
    assert_eq!(response.session.len(), 64);
    assert_eq!(response.refresh_token.len(), 64);
    assert_ne!(response.session, response.refresh_token);
    assert_eq!(store.find_account_by_username("bob").unwrap().refresh_token, None);
}

#[test]
fn a_later_login_overwrites_the_refresh_token() {
    let mut store = alice_and_bob(Vec::new());
    let first = login(request("alice", "secret1", true), &mut store, 50).unwrap();
    let second = login(request("alice", "secret1", true), &mut store, 60).unwrap();
    assert_ne!(first.refresh_token, second.refresh_token);
    assert_ne!(first.session, second.session);
    assert_eq!(
        store.find_account_by_username("alice").unwrap().refresh_token,
        Some(second.refresh_token)
    );
    assert_eq!(store.find_account_by_refresh_token(&first.refresh_token), None);
    assert_eq!(store.find_sessions(1).len(), 2);
}

#[test]
fn a_refused_login_changes_nothing() {
    let rows = vec![session(1, "old", 10), session(2, "other", 10)];
    let mut store = alice_and_bob(rows.clone());
    assert_eq!(
        login(request("alice", "wrong", true), &mut store, 1000),
        Err(ApiError::NotAuthorized)
    );
    assert_eq!(
        login(request("nobody", "secret1", true), &mut store, 1000),
        Err(ApiError::NotAuthorized)
    );
    assert_eq!(
        login_with_keys(&request("bob", "secret1", false), &mut store, 1000, 1, 2),
        Err(ApiError::NotAuthorized)
    );
    assert_eq!(store.sessions(), &rows);
    assert!(store.journal().is_empty());
    assert_eq!(store.find_account_by_username("alice").unwrap().refresh_token, None);
    assert_eq!(store.find_account_by_username("bob").unwrap().refresh_token, None);
}

#[test]
fn a_login_under_keys_gives_the_tokens_of_the_keys() {
    let mut store = alice_and_bob(Vec::new());
    let response =
        login_with_keys(&request("bob", "hunter2", false), &mut store, 7000, 7, 8).unwrap();
    assert_eq!(response.session, generate(2, 7));
    assert_eq!(response.refresh_token, generate(2, 8));
    assert_eq!(store.sessions(), &vec![session(2, &generate(2, 7), 8800)]);
    assert_eq!(
        store.find_account_by_username("bob").unwrap().refresh_token,
        Some(generate(2, 8))
    );
}

#[test]
fn a_remembered_login_expires_in_seven_days() {
    let mut store = alice_and_bob(Vec::new());
    let response =
        login_with_keys(&request("alice", "secret1", true), &mut store, 1_000, 3, 4).unwrap();
    assert_eq!(store.sessions()[0], session(1, &response.session, 605_800));
}

#[test]
fn a_login_at_the_last_moment_expires_at_the_largest_time() {
    let mut store = alice_and_bob(Vec::new());
    let now = u64::MAX - 1800;
    login_with_keys(&request("alice", "secret1", false), &mut store, now, 3, 4).unwrap();
    assert_eq!(store.sessions()[0].expire_at, u64::MAX);
    let mut other = alice_and_bob(Vec::new());
    let now = u64::MAX - 604800;
    login_with_keys(&request("alice", "secret1", true), &mut other, now, 3, 4).unwrap();
    assert_eq!(other.sessions()[0].expire_at, u64::MAX);
}

#[test]
fn a_login_removes_the_expired_session_and_keeps_the_other() {
    let mut store = alice_and_bob(vec![session(1, "past", 999), session(1, "future", 5000)]);
    let response = login(request("alice", "secret1", false), &mut store, 1000).unwrap();
    assert_eq!(
        store.sessions(),
        &vec![session(1, "future", 5000), session(1, &response.session, 2800)]
    );
}

#[test]
fn a_session_that_expires_now_is_still_valid() {
    let mut store = alice_and_bob(vec![session(1, "edge", 1000), session(1, "gone", 999)]);
    sweep_expired(&mut store, 1, 1000);
    assert_eq!(store.sessions(), &vec![session(1, "edge", 1000)]);
    assert_eq!(store.journal(), &vec![Mutation::DeleteSession("gone".to_string())]);
}

#[test]
fn a_sweep_leaves_the_sessions_of_other_accounts() {
    let mut store = alice_and_bob(vec![
        session(2, "b-old", 1),
        session(1, "a-old", 2),
        session(2, "b-new", 9000),
        session(1, "a-older", 0),
        session(1, "a-new", 9000),
    ]);
    sweep_expired(&mut store, 1, 1000);
    assert_eq!(
        store.sessions(),
        &vec![session(2, "b-old", 1), session(2, "b-new", 9000), session(1, "a-new", 9000)]
    );
    assert_eq!(
        store.journal(),
        &vec![
            Mutation::DeleteSession("a-old".to_string()),
            Mutation::DeleteSession("a-older".to_string()),
        ]
    );
}

#[test]
fn a_sweep_with_nothing_expired_writes_nothing() {
    let mut store = alice_and_bob(vec![session(1, "a", 1000), session(2, "b", 0)]);
    sweep_expired(&mut store, 1, 0);
    sweep_expired(&mut store, 1, 1000);
    sweep_expired(&mut store, 3, u64::MAX);
    assert_eq!(store.sessions().len(), 2);
    assert!(store.journal().is_empty());
}

#[test]
fn a_sweep_deletes_by_token() {
    let mut store = alice_and_bob(vec![
        session(1, "shared", 5),
        session(2, "shared", 9000),
        session(1, "own", 9000),
    ]);
    sweep_expired(&mut store, 1, 1000);
    assert_eq!(store.sessions(), &vec![session(1, "own", 9000)]);
}

#[test]
fn issue_adds_a_session_and_keeps_the_earlier_ones() {
    let mut store = alice_and_bob(vec![session(1, "earlier", 10)]);
    let issued = issue(&mut store, 1, false, 100, 77);
    assert_eq!(issued, (generate(1, 77), 1900));
    let again = issue(&mut store, 1, true, 100, 78);
    assert_eq!(again, (generate(1, 78), 604_900));
    assert_eq!(
        store.sessions(),
        &vec![
            session(1, "earlier", 10),
            session(1, &generate(1, 77), 1900),
            session(1, &generate(1, 78), 604_900),
        ]
    );
}

#[test]
fn a_login_journals_its_writes_in_order() {
    let mut store = alice_and_bob(vec![session(1, "past", 1), session(2, "other", 1)]);
    login_with_keys(&request("alice", "secret1", false), &mut store, 100, 5, 6).unwrap();
    assert_eq!(
        store.journal(),
        &vec![
            Mutation::DeleteSession("past".to_string()),
            Mutation::InsertSession(session(1, &generate(1, 5), 1900)),
            Mutation::UpdateRefreshToken(1, generate(1, 6)),
        ]
    );
}

#[test]
fn two_logins_of_one_account_get_different_tokens() {
    let mut store = alice_and_bob(Vec::new());
    let mut seen = std::collections::HashSet::new();
    let mut round = 0;
    while round < 50 {
        let response = login(request("alice", "secret1", false), &mut store, 10).unwrap();
        assert!(seen.insert(response.session));
        assert!(seen.insert(response.refresh_token));
        round += 1;
    }
    assert_eq!(store.find_sessions(1).len(), 50);
}
