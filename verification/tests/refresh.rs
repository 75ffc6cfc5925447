use session_auth::auth::{grant, refreshed_lifetime, rotate};
use session_auth::token::generate;
use session_auth::{
    login, refresh, Account, ApiError, LoginData, Mutation, RefreshData, ResponseData, Session,
    Store,
};

fn holder(id: u64, username: &str, refresh_token: Option<&str>) -> Account {
    Account {
        id,
        username: username.to_string(),
        salt: "salt".to_string(),
        password_hash: session_auth::digest::hash_from_string(format!("{}{}", "pw", "salt")),
        refresh_token: refresh_token.map(|token| token.to_string()),
    }
}

fn holders() -> Store {
    Store::from_rows(
        vec![holder(1, "alice", Some("rt1")), holder(2, "bob", Some("bob-rt")), holder(3, "carol", None)],
        vec![Session { account_id: 1, session_token: "old".to_string(), expire_at: 5 }],
    )
    .unwrap()
}

fn presenting(token: &str) -> RefreshData {
    RefreshData { refresh_token: token.to_string() }
}

#[test]
fn a_refreshed_session_lives_seven_days() {
    assert_eq!(refreshed_lifetime(), 604800);
}

#[test]
fn a_refresh_token_is_good_for_one_rotation() {
    let mut store = holders();
    let first = refresh(presenting("rt1"), &mut store, 1000).unwrap();
    let rt2 = first.refresh_token.clone();
    assert_ne!(rt2, "rt1");

    assert_eq!(refresh(presenting("rt1"), &mut store, 1001), Err(ApiError::NotAuthorized));

    let second = refresh(presenting(&rt2), &mut store, 1002).unwrap();
    assert_ne!(second.refresh_token, rt2);
    assert_eq!(refresh(presenting(&rt2), &mut store, 1003), Err(ApiError::NotAuthorized));
    assert_eq!(
        store.find_account_by_username("alice").unwrap().refresh_token,
        Some(second.refresh_token)
    );
}

#[test]
fn a_rotation_under_keys_gives_the_tokens_of_the_keys() {
    let mut store = holders();
    let response = rotate(&mut store, "bob-rt", 2000, 11, 12).unwrap();
    assert_eq!(
        response,
        ResponseData { session: generate(2, 11), refresh_token: generate(2, 12) }
    );
    assert_eq!(
        store.find_account_by_username("bob").unwrap().refresh_token,
        Some(generate(2, 12))
    );
    assert_eq!(store.find_account_by_username("alice").unwrap().refresh_token, Some("rt1".to_string()));
}

#[test]
fn a_rotation_issues_a_session_of_seven_days_and_keeps_the_others() {
    let mut store = holders();
    rotate(&mut store, "rt1", 2000, 11, 12).unwrap();
    assert_eq!(
        store.sessions(),
        &vec![
            Session { account_id: 1, session_token: "old".to_string(), expire_at: 5 },
            Session { account_id: 1, session_token: generate(1, 11), expire_at: 606_800 },
        ]
    );
}

#[test]
fn a_rotation_journals_its_writes_in_order() {
    let mut store = holders();
    rotate(&mut store, "rt1", 2000, 11, 12).unwrap();
    assert_eq!(
        store.journal(),
        &vec![
            Mutation::InsertSession(Session {
                account_id: 1,
                session_token: generate(1, 11),
                expire_at: 606_800,
            }),
            Mutation::UpdateRefreshToken(1, generate(1, 12)),
        ]
    );
}

#[test]
fn an_unknown_refresh_token_is_refused_and_changes_nothing() {
    let mut store = holders();
    assert_eq!(rotate(&mut store, "forged", 2000, 11, 12), Err(ApiError::NotAuthorized));
    assert_eq!(rotate(&mut store, "", 2000, 11, 12), Err(ApiError::NotAuthorized));
    assert_eq!(refresh(presenting("RT1"), &mut store, 2000), Err(ApiError::NotAuthorized));
    assert_eq!(store.sessions().len(), 1);
    assert!(store.journal().is_empty());
    assert_eq!(store.find_account_by_refresh_token("rt1").unwrap().id, 1);
}

#[test]
fn a_rotated_token_is_refused_under_keys_too() {
    let mut store = holders();
    let response = rotate(&mut store, "rt1", 2000, 11, 12).unwrap();
    assert_eq!(rotate(&mut store, "rt1", 2001, 13, 14), Err(ApiError::NotAuthorized));
    let next = rotate(&mut store, &response.refresh_token, 2002, 13, 14).unwrap();
    assert_eq!(next.refresh_token, generate(1, 14));
    assert_eq!(store.find_sessions(1).len(), 3);
}

#[test]
fn a_rotation_at_the_last_moment_expires_at_the_largest_time() {
    let mut store = holders();
    rotate(&mut store, "rt1", u64::MAX - 604800, 1, 2).unwrap();
    assert_eq!(store.sessions()[1].expire_at, u64::MAX);
}

#[test]
fn the_refresh_token_of_a_login_can_be_rotated() {
    let mut store = holders();
    let request = LoginData { username: "carol".to_string(), pw: "pw".to_string(), remember: false };
    let logged_in = login(request, &mut store, 100).unwrap();
    let renewed = refresh(presenting(&logged_in.refresh_token), &mut store, 200).unwrap();
    assert_ne!(renewed.session, logged_in.session);
    assert_eq!(
        store.find_sessions(3),
        vec![
            Session { account_id: 3, session_token: logged_in.session, expire_at: 1900 },
            Session { account_id: 3, session_token: renewed.session, expire_at: 605_000 },
        ]
    );
}

#[test]
fn grant_issues_a_session_and_replaces_the_refresh_token() {
    let mut store = holders();
    let response = grant(&mut store, 3, false, 10, 21, 22);
    assert_eq!(response.session, generate(3, 21));
    assert_eq!(response.refresh_token, generate(3, 22));
    assert_eq!(
        store.find_sessions(3),
        vec![Session { account_id: 3, session_token: generate(3, 21), expire_at: 1810 }]
    );
    assert_eq!(store.find_account_by_refresh_token(&generate(3, 22)).unwrap().id, 3);
}

#[test]
fn requests_and_answers_can_be_copied() {
    let request = LoginData { username: "u".to_string(), pw: "p".to_string(), remember: true };
    assert_eq!(request.clone(), request);
    let renewal = presenting("rt");
    assert_eq!(renewal.clone(), renewal);
    let answer = ResponseData { session: "s".to_string(), refresh_token: "r".to_string() };
    assert_eq!(answer.clone(), answer);
}
