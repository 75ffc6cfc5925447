use crate::digest::{hash_from_string, hash_hex};
use crate::error::ApiError;
use crate::seq_facts::{lemma_contains_push, lemma_filter_twice, lemma_no_match};
use crate::store::{
    session_views, Account, AccountView, MutationView, SessionView, Store, StoreView,
};
use crate::token::{draw_key, generate, token_for};
use vstd::prelude::*;
use vstd::utf8::encode_utf8;

verus! {

pub const SESSION_REMEMBER_EXPIRE_HOUR: u64 = 24 * 7;

pub const SESSION_NO_REMEMBER_EXPIRE_MINUTE: u64 = 30;

pub const REFRESHED_SESSION_EXPIRE_HOUR: u64 = 24 * 7;

/// What a login request carries.
#[derive(Debug, PartialEq, Eq, Hash)]
pub struct LoginData {
    pub username: String,
    pub pw: String,
    pub remember: bool,
}

/// What a refresh request carries.
#[derive(Debug, PartialEq, Eq, Hash)]
pub struct RefreshData {
    pub refresh_token: String,
}

/// What a successful login or refresh answers.
#[derive(Debug, Hash, PartialEq, Eq)]
pub struct ResponseData {
    pub session: String,
    pub refresh_token: String,
}

pub struct ResponseView {
    pub session: Seq<char>,
    pub refresh_token: Seq<char>,
}

impl View for ResponseData {
    type V = ResponseView;

    open spec fn view(&self) -> ResponseView {
        ResponseView { session: self.session@, refresh_token: self.refresh_token@ }
    }
}

impl Clone for LoginData {
    fn clone(&self) -> (copy: LoginData)
        ensures
            copy == *self,
    {
        LoginData {
            username: self.username.clone(),
            pw: self.pw.clone(),
            remember: self.remember,
        }
    }
}

impl Clone for RefreshData {
    fn clone(&self) -> (copy: RefreshData)
        ensures
            copy == *self,
    {
        RefreshData { refresh_token: self.refresh_token.clone() }
    }
}

impl Clone for ResponseData {
    fn clone(&self) -> (copy: ResponseData)
        ensures
            copy == *self,
    {
        ResponseData { session: self.session.clone(), refresh_token: self.refresh_token.clone() }
    }
}

pub open spec fn outcome_view(outcome: Result<ResponseData, ApiError>) -> Result<
    ResponseView,
    ApiError,
> {
    match outcome {
        Ok(response) => Ok(response@),
        Err(error) => Err(error),
    }
}

/// Seconds that a session lives after a login: seven days where the client
/// asked to be remembered, thirty minutes where it did not.
pub open spec fn policy_duration(remember: bool) -> int {
    if remember {
        604800
    } else {
        1800
    }
}

/// Seconds that a session lives after a refresh: always seven days.
pub open spec fn refreshed_duration() -> int {
    604800
}

/// The password is the account's: the digest text of the password followed
/// by the account's salt is the stored one.
pub open spec fn password_matches(account: AccountView, password: Seq<char>) -> bool {
    hash_hex(encode_utf8(password + account.salt)) == account.password_hash
}

/// Whose credentials these are. An unknown username and a wrong password
/// give the same error.
pub open spec fn verified_account(store: StoreView, username: Seq<char>, password: Seq<char>)
    -> Result<u64, ApiError> {
    match store.account_by_username(username) {
        Some(account) => if password_matches(account, password) {
            Ok(account.id)
        } else {
            Err(ApiError::NotAuthorized)
        },
        None => Err(ApiError::NotAuthorized),
    }
}

/// The tokens of the rows that expired before `now`, in row order.
pub open spec fn expired_tokens(rows: Seq<SessionView>, now: u64) -> Seq<Seq<char>> {
    rows.filter(|row: SessionView| row.expire_at < now).map_values(
        |row: SessionView| row.session_token,
    )
}

pub open spec fn deletions(tokens: Seq<Seq<char>>) -> Seq<MutationView> {
    tokens.map_values(|token: Seq<char>| MutationView::DeleteSession(token))
}

/// The store after the expired sessions of an account were deleted, each by
/// its token.
pub open spec fn swept(store: StoreView, account_id: u64, now: u64) -> StoreView {
    let doomed = expired_tokens(store.sessions_of(account_id), now);
    StoreView {
        accounts: store.accounts,
        sessions: store.sessions.filter(|row: SessionView| !doomed.contains(row.session_token)),
        journal: store.journal + deletions(doomed),
    }
}

/// The store after a session was issued to an account and its refresh token
/// replaced.
pub open spec fn granted(
    store: StoreView,
    account_id: u64,
    expire_at: u64,
    session_key: u64,
    refresh_key: u64,
) -> StoreView {
    store.insert_session(
        SessionView { account_id, session_token: token_for(account_id, session_key), expire_at },
    ).update_refresh_token(account_id, token_for(account_id, refresh_key))
}

/// The answer that names the tokens of an account under two keys.
pub open spec fn response_for(account_id: u64, session_key: u64, refresh_key: u64)
    -> ResponseView {
    ResponseView {
        session: token_for(account_id, session_key),
        refresh_token: token_for(account_id, refresh_key),
    }
}

/// The store after a verified account logged in.
pub open spec fn session_started(
    store: StoreView,
    account_id: u64,
    remember: bool,
    now: u64,
    session_key: u64,
    refresh_key: u64,
) -> StoreView {
    granted(
        swept(store, account_id, now),
        account_id,
        (now + policy_duration(remember)) as u64,
        session_key,
        refresh_key,
    )
}

/// What a login answers.
pub open spec fn login_outcome(
    store: StoreView,
    username: Seq<char>,
    password: Seq<char>,
    session_key: u64,
    refresh_key: u64,
) -> Result<ResponseView, ApiError> {
    match verified_account(store, username, password) {
        Ok(account_id) => Ok(response_for(account_id, session_key, refresh_key)),
        Err(error) => Err(error),
    }
}

/// The store after a login: unchanged where the credentials are refused.
pub open spec fn store_after_login(
    store: StoreView,
    username: Seq<char>,
    password: Seq<char>,
    remember: bool,
    now: u64,
    session_key: u64,
    refresh_key: u64,
) -> StoreView {
    match verified_account(store, username, password) {
        Ok(account_id) => session_started(
            store,
            account_id,
            remember,
            now,
            session_key,
            refresh_key,
        ),
        Err(_) => store,
    }
}

/// What a rotation answers.
pub open spec fn rotate_outcome(
    store: StoreView,
    refresh_token: Seq<char>,
    session_key: u64,
    refresh_key: u64,
) -> Result<ResponseView, ApiError> {
    match store.account_by_refresh_token(refresh_token) {
        Some(account) => Ok(response_for(account.id, session_key, refresh_key)),
        None => Err(ApiError::NotAuthorized),
    }
}

/// The store after a rotation: unchanged where the token is refused.
pub open spec fn store_after_rotate(
    store: StoreView,
    refresh_token: Seq<char>,
    now: u64,
    session_key: u64,
    refresh_key: u64,
) -> StoreView {
    match store.account_by_refresh_token(refresh_token) {
        Some(account) => granted(
            store,
            account.id,
            (now + refreshed_duration()) as u64,
            session_key,
            refresh_key,
        ),
        None => store,
    }
}

/// Seconds that a session lives after a login.
pub fn session_lifetime(remember: bool) -> (seconds: u64)
    ensures
        seconds == policy_duration(remember),
{
    if remember {
        60 * 60 * SESSION_REMEMBER_EXPIRE_HOUR
    } else {
        60 * SESSION_NO_REMEMBER_EXPIRE_MINUTE
    }
}

/// Seconds that a session lives after a refresh.
pub fn refreshed_lifetime() -> (seconds: u64)
    ensures
        seconds == refreshed_duration(),
{
    60 * 60 * REFRESHED_SESSION_EXPIRE_HOUR
}

/// Decides on a digest text that was computed for an account: the account's
/// identity where it is the stored one, `NotAuthorized` otherwise.
pub fn check_password_digest(account: &Account, digest: &String) -> (verdict: Result<
    u64,
    ApiError,
>)
    ensures
        verdict == if digest@ == account@.password_hash {
            Ok::<u64, ApiError>(account.id)
        } else {
            Err::<u64, ApiError>(ApiError::NotAuthorized)
        },
{
    if *digest == account.password_hash {
        Ok(account.id)
    } else {
        Err(ApiError::NotAuthorized)
    }
}

/// Checks a username and password against the stored salted digest. Changes
/// nothing.
pub fn verify(store: &Store, username: &str, password: &str) -> (verdict: Result<u64, ApiError>)
    ensures
        verdict == verified_account(store@, username@, password@),
{
    match store.find_account_by_username(username) {
        Some(account) => {
            let mut salted = String::from_str(password);
            salted.append(account.salt.as_str());
            let digest = hash_from_string(salted);
            check_password_digest(&account, &digest)
        },
        None => Err(ApiError::NotAuthorized),
    }
}

/// Deletes the sessions of an account that expired before `now`. A session
/// that expires at `now` is still valid and stays.
#[verifier::loop_isolation(false)]
pub fn sweep_expired(store: &mut Store, account_id: u64, now: u64)
    ensures
        final(store)@ == swept(old(store)@, account_id, now),
{
    let rows = store.find_sessions(account_id);
    let ghost before = store@;
    let ghost mine = session_views(rows@);
    let mut i: usize = 0;
    proof {
        lemma_no_match(mine.take(0), |row: SessionView| row.expire_at < now);
        assert(expired_tokens(mine.take(0), now) =~= Seq::empty());
        lemma_keep_all(before.sessions);
        assert(store@.journal =~= before.journal + deletions(expired_tokens(mine.take(0), now)));
    }
    while i < rows.len()
        invariant
            i <= rows.len(),
            store@.accounts == before.accounts,
            store@.sessions == before.sessions.filter(
                |row: SessionView| !expired_tokens(mine.take(i as int), now).contains(
                    row.session_token,
                ),
            ),
            store@.journal == before.journal + deletions(expired_tokens(mine.take(i as int), now)),
        decreases rows.len() - i,
    {
        let ghost doomed = expired_tokens(mine.take(i as int), now);
        let ghost token = mine[i as int].session_token;
        proof {
            Seq::lemma_filter_push(
                mine.take(i as int),
                mine[i as int],
                |row: SessionView| row.expire_at < now,
            );
            assert(mine.take(i + 1) =~= mine.take(i as int).push(mine[i as int]));
        }
        if rows[i].expire_at < now {
            store.delete_session(rows[i].session_token.as_str());
            proof {
                let longer = expired_tokens(mine.take(i + 1), now);
                assert(longer =~= doomed.push(token));
                assert forall|row: SessionView|
                    !(#[trigger] longer.contains(row.session_token)) == (!doomed.contains(
                        row.session_token,
                    ) && row.session_token != token) by {
                    lemma_contains_push(doomed, token, row.session_token);
                }
                lemma_filter_twice(
                    before.sessions,
                    |row: SessionView| !doomed.contains(row.session_token),
                    |row: SessionView| row.session_token != token,
                    |row: SessionView| !longer.contains(row.session_token),
                );
                assert(store@.journal =~= before.journal + deletions(longer));
            }
        } else {
            assert(expired_tokens(mine.take(i + 1), now) =~= doomed);
        }
        i += 1;
    }
    assert(mine.take(i as int) =~= mine);
}

/// Filtering by a predicate that holds of every row keeps the rows.
proof fn lemma_keep_all(rows: Seq<SessionView>)
    ensures
        rows.filter(
            |row: SessionView| !Seq::<Seq<char>>::empty().contains(row.session_token),
        ) == rows,
    decreases rows.len(),
{
    reveal(Seq::filter);
    let kept = |row: SessionView| !Seq::<Seq<char>>::empty().contains(row.session_token);
    if rows.len() > 0 {
        lemma_keep_all(rows.drop_last());
        assert(kept(rows.last()));
        assert(rows.drop_last().push(rows.last()) =~= rows);
    }
}

/// Issues a session to an account: computes the expiry from the policy,
/// makes the token from the key and adds the row. Earlier sessions of the
/// account stay.
pub fn issue(store: &mut Store, account_id: u64, remember: bool, now: u64, key: u64) -> (issued: (
    String,
    u64,
))
    requires
        now + policy_duration(remember) <= u64::MAX,
    ensures
        issued.0@ == token_for(account_id, key),
        issued.1 == now + policy_duration(remember),
        final(store)@ == old(store)@.insert_session(
            SessionView { account_id, session_token: issued.0@, expire_at: issued.1 },
        ),
{
    let expire_at: u64 = now + session_lifetime(remember);
    let token = generate(account_id, key);
    store.insert_session(account_id, token.clone(), expire_at);
    (token, expire_at)
}

/// Issues a session to an account and replaces the account's refresh token
/// by a new one. The two tokens come from two keys.
pub fn grant(
    store: &mut Store,
    account_id: u64,
    remember: bool,
    now: u64,
    session_key: u64,
    refresh_key: u64,
) -> (response: ResponseData)
    requires
        now + policy_duration(remember) <= u64::MAX,
    ensures
        response@ == response_for(account_id, session_key, refresh_key),
        final(store)@ == granted(
            old(store)@,
            account_id,
            (now + policy_duration(remember)) as u64,
            session_key,
            refresh_key,
        ),
{
    let issued = issue(store, account_id, remember, now, session_key);
    let refresh_token = generate(account_id, refresh_key);
    store.update_refresh_token(account_id, refresh_token.clone());
    ResponseData { session: issued.0, refresh_token }
}

/// A login under given keys: verifies the credentials, deletes the
/// account's expired sessions, issues a session and replaces the refresh
/// token. Refused credentials change nothing.
pub fn login_with_keys(
    json_data: &LoginData,
    database: &mut Store,
    now: u64,
    session_key: u64,
    refresh_key: u64,
) -> (outcome: Result<ResponseData, ApiError>)
    requires
        now + policy_duration(json_data.remember) <= u64::MAX,
    ensures
        outcome_view(outcome) == login_outcome(
            old(database)@,
            json_data.username@,
            json_data.pw@,
            session_key,
            refresh_key,
        ),
        final(database)@ == store_after_login(
            old(database)@,
            json_data.username@,
            json_data.pw@,
            json_data.remember,
            now,
            session_key,
            refresh_key,
        ),
{
    match verify(database, json_data.username.as_str(), json_data.pw.as_str()) {
        Ok(account_id) => {
            sweep_expired(database, account_id, now);
            Ok(grant(database, account_id, json_data.remember, now, session_key, refresh_key))
        },
        Err(error) => Err(error),
    }
}

/// The keys explain a successful login: it answered and left the store as a
/// login under these keys does.
pub open spec fn logged_in_with(
    before: StoreView,
    json_data: LoginData,
    now: u64,
    session_key: u64,
    refresh_key: u64,
    after: StoreView,
    response: ResponseView,
) -> bool {
    &&& login_outcome(before, json_data.username@, json_data.pw@, session_key, refresh_key) == Ok::<
        ResponseView,
        ApiError,
    >(response)
    &&& after == store_after_login(
        before,
        json_data.username@,
        json_data.pw@,
        json_data.remember,
        now,
        session_key,
        refresh_key,
    )
}

/// Some pair of keys explains a successful login.
pub open spec fn logged_in(
    before: StoreView,
    json_data: LoginData,
    now: u64,
    after: StoreView,
    response: ResponseView,
) -> bool {
    exists|session_key: u64, refresh_key: u64| #[trigger]
        logged_in_with(before, json_data, now, session_key, refresh_key, after, response)
}

/// Handles a login request at time `now`, with two keys drawn from the
/// operating system. Refused credentials give `NotAuthorized`, whatever the
/// randomness source does; accepted ones give a login under some pair of
/// keys, or `StorageFailure` where no key could be drawn. Every failure
/// leaves the store as it was.
pub fn login(json_data: LoginData, database: &mut Store, now: u64) -> (outcome: Result<
    ResponseData,
    ApiError,
>)
    requires
        now + policy_duration(json_data.remember) <= u64::MAX,
    ensures
        outcome matches Ok(response) ==> logged_in(
            old(database)@,
            json_data,
            now,
            final(database)@,
            response@,
        ),
        outcome is Err ==> final(database)@ == old(database)@,
        outcome == Err::<ResponseData, ApiError>(ApiError::NotAuthorized) <==> verified_account(
            old(database)@,
            json_data.username@,
            json_data.pw@,
        ) is Err,
{
    match verify(database, json_data.username.as_str(), json_data.pw.as_str()) {
        Ok(account_id) => match draw_key() {
            Ok(session_key) => match draw_key() {
                Ok(refresh_key) => {
                    sweep_expired(database, account_id, now);
                    let response = grant(
                        database,
                        account_id,
                        json_data.remember,
                        now,
                        session_key,
                        refresh_key,
                    );
                    assert(logged_in_with(
                        old(database)@,
                        json_data,
                        now,
                        session_key,
                        refresh_key,
                        database@,
                        response@,
                    ));
                    Ok(response)
                },
                Err(error) => Err(error),
            },
            Err(error) => Err(error),
        },
        Err(error) => Err(error),
    }
}

/// A rotation under given keys: the account whose current refresh token is
/// presented gets a session of seven days and a new refresh token, which
/// replaces the presented one at once. Any other token is refused and
/// changes nothing.
pub fn rotate(
    store: &mut Store,
    refresh_token: &str,
    now: u64,
    session_key: u64,
    refresh_key: u64,
) -> (outcome: Result<ResponseData, ApiError>)
    requires
        now + refreshed_duration() <= u64::MAX,
    ensures
        outcome_view(outcome) == rotate_outcome(
            old(store)@,
            refresh_token@,
            session_key,
            refresh_key,
        ),
        final(store)@ == store_after_rotate(
            old(store)@,
            refresh_token@,
            now,
            session_key,
            refresh_key,
        ),
{
    match store.find_account_by_refresh_token(refresh_token) {
        Some(account) => Ok(grant(store, account.id, true, now, session_key, refresh_key)),
        None => Err(ApiError::NotAuthorized),
    }
}

/// The keys explain a successful refresh: it answered and left the store as
/// a rotation under these keys does.
pub open spec fn refreshed_with(
    before: StoreView,
    refresh_token: Seq<char>,
    now: u64,
    session_key: u64,
    refresh_key: u64,
    after: StoreView,
    response: ResponseView,
) -> bool {
    &&& rotate_outcome(before, refresh_token, session_key, refresh_key) == Ok::<
        ResponseView,
        ApiError,
    >(response)
    &&& after == store_after_rotate(before, refresh_token, now, session_key, refresh_key)
}

/// Some pair of keys explains a successful refresh.
pub open spec fn refreshed(
    before: StoreView,
    refresh_token: Seq<char>,
    now: u64,
    after: StoreView,
    response: ResponseView,
) -> bool {
    exists|session_key: u64, refresh_key: u64| #[trigger]
        refreshed_with(before, refresh_token, now, session_key, refresh_key, after, response)
}

/// Handles a refresh request at time `now`, with two keys drawn from the
/// operating system. A token that is not the current refresh token of an
/// account gives `NotAuthorized`, whatever the randomness source does; a
/// current one gives a rotation under some pair of keys, or `StorageFailure`
/// where no key could be drawn. Every failure leaves the store as it was.
pub fn refresh(json_data: RefreshData, database: &mut Store, now: u64) -> (outcome: Result<
    ResponseData,
    ApiError,
>)
    requires
        now + refreshed_duration() <= u64::MAX,
    ensures
        outcome matches Ok(response) ==> refreshed(
            old(database)@,
            json_data.refresh_token@,
            now,
            final(database)@,
            response@,
        ),
        outcome is Err ==> final(database)@ == old(database)@,
        outcome == Err::<ResponseData, ApiError>(ApiError::NotAuthorized)
            <==> old(database)@.account_by_refresh_token(json_data.refresh_token@) is None,
{
    match database.find_account_by_refresh_token(json_data.refresh_token.as_str()) {
        Some(account) => match draw_key() {
            Ok(session_key) => match draw_key() {
                Ok(refresh_key) => {
                    let response = grant(
                        database,
                        account.id,
                        true,
                        now,
                        session_key,
                        refresh_key,
                    );
                    assert(refreshed_with(
                        old(database)@,
                        json_data.refresh_token@,
                        now,
                        session_key,
                        refresh_key,
                        database@,
                        response@,
                    ));
                    Ok(response)
                },
                Err(error) => Err(error),
            },
            Err(error) => Err(error),
        },
        None => Err(ApiError::NotAuthorized),
    }
}

} // verus!
