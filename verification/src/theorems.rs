use crate::auth::{
    expired_tokens, logged_in, logged_in_with, login_outcome, policy_duration, refreshed,
    refreshed_duration, refreshed_with, rotate_outcome, store_after_login, store_after_rotate,
    swept, verified_account, LoginData, ResponseView,
};
use crate::error::ApiError;
use crate::seq_facts::{
    lemma_filter_agree, lemma_filter_map, lemma_first_match_found, lemma_no_match,
    lemma_some_match,
};
use crate::store::{AccountView, SessionView, StoreView};
use crate::token::{decimal, token_for, token_source};
use vstd::bytes::{lemma_auto_spec_u64_to_from_le_bytes, spec_u64_to_le_bytes};
use vstd::prelude::*;

verus! {

/// Every account that holds `token` as its refresh token has the same
/// identity.
pub open spec fn sole_holder(store: StoreView, token: Seq<char>) -> bool {
    forall|i: int, j: int|
        0 <= i < store.accounts.len() && 0 <= j < store.accounts.len() && (
        #[trigger] store.accounts[i]).refresh_token == Some(token) && (
        #[trigger] store.accounts[j]).refresh_token == Some(token) ==> store.accounts[i].id
            == store.accounts[j].id
}

/// After the refresh token of an account was replaced, the account is still
/// found under its username, and it holds the new token.
pub proof fn replaced_token_is_stored(
    store: StoreView,
    username: Seq<char>,
    account_id: u64,
    token: Seq<char>,
)
    requires
        store.account_by_username(username) matches Some(account) && account.id == account_id,
    ensures
        store.update_refresh_token(account_id, token).account_by_username(username) matches Some(
            account,
        ) && account.id == account_id && account.refresh_token == Some(token),
{
    let change = |row: AccountView|
        if row.id == account_id {
            AccountView {
                id: row.id,
                username: row.username,
                salt: row.salt,
                password_hash: row.password_hash,
                refresh_token: Some(token),
            }
        } else {
            row
        };
    let wanted = |row: AccountView| row.username == username;
    lemma_filter_map(store.accounts, change, wanted);
}

/// A login with valid credentials answers with a session token and a
/// refresh token, and the refresh token stored for the account afterwards
/// is the one returned.
pub proof fn login_stores_the_returned_refresh_token(
    store: StoreView,
    username: Seq<char>,
    password: Seq<char>,
    remember: bool,
    now: u64,
    session_key: u64,
    refresh_key: u64,
)
    requires
        verified_account(store, username, password) is Ok,
    ensures
        login_outcome(store, username, password, session_key, refresh_key) matches Ok(response)
            && store_after_login(
            store,
            username,
            password,
            remember,
            now,
            session_key,
            refresh_key,
        ).account_by_username(username) matches Some(account) && account.refresh_token == Some(
            response.refresh_token,
        ),
{
    let account_id = verified_account(store, username, password)->Ok_0;
    let expire_at = (now + policy_duration(remember)) as u64;
    let issued = swept(store, account_id, now).insert_session(
        SessionView { account_id, session_token: token_for(account_id, session_key), expire_at },
    );
    replaced_token_is_stored(issued, username, account_id, token_for(account_id, refresh_key));
}

/// A login with an unknown username or a wrong password fails with
/// `NotAuthorized` and leaves both tables as they were: no session row is
/// created.
pub proof fn refused_login_changes_nothing(
    store: StoreView,
    username: Seq<char>,
    password: Seq<char>,
    remember: bool,
    now: u64,
    session_key: u64,
    refresh_key: u64,
)
    requires
        verified_account(store, username, password) is Err,
    ensures
        login_outcome(store, username, password, session_key, refresh_key) == Err::<
            ResponseView,
            ApiError,
        >(ApiError::NotAuthorized),
        store_after_login(store, username, password, remember, now, session_key, refresh_key)
            == store,
{
}

/// A refresh token that no account holds is refused with `NotAuthorized`,
/// and the refusal leaves both tables as they were.
pub proof fn refused_rotation_changes_nothing(
    store: StoreView,
    refresh_token: Seq<char>,
    now: u64,
    session_key: u64,
    refresh_key: u64,
)
    requires
        store.account_by_refresh_token(refresh_token) is None,
    ensures
        rotate_outcome(store, refresh_token, session_key, refresh_key) == Err::<
            ResponseView,
            ApiError,
        >(ApiError::NotAuthorized),
        store_after_rotate(store, refresh_token, now, session_key, refresh_key) == store,
{
}

/// The session that a login adds is the last row of the table, belongs to
/// the verified account and expires thirty minutes after the login, or
/// seven days after it where the client asked to be remembered.
pub proof fn login_session_expires_by_policy(
    store: StoreView,
    username: Seq<char>,
    password: Seq<char>,
    remember: bool,
    now: u64,
    session_key: u64,
    refresh_key: u64,
)
    requires
        verified_account(store, username, password) is Ok,
        now + policy_duration(remember) <= u64::MAX,
    ensures
        store_after_login(
            store,
            username,
            password,
            remember,
            now,
            session_key,
            refresh_key,
        ).sessions.last() == (SessionView {
            account_id: verified_account(store, username, password)->Ok_0,
            session_token: token_for(
                verified_account(store, username, password)->Ok_0,
                session_key,
            ),
            expire_at: (now + if remember {
                7 * 24 * 60 * 60
            } else {
                30 * 60
            }) as u64,
        }),
{
}

/// The session that a refresh adds is the last row of the table, belongs to
/// the account that held the token and expires seven days after the refresh.
/// The sessions that were there stay as they were.
pub proof fn refreshed_session_expires_in_a_week(
    store: StoreView,
    refresh_token: Seq<char>,
    now: u64,
    session_key: u64,
    refresh_key: u64,
)
    requires
        store.account_by_refresh_token(refresh_token) is Some,
        now + refreshed_duration() <= u64::MAX,
    ensures
        store_after_rotate(store, refresh_token, now, session_key, refresh_key).sessions
            == store.sessions.push(
            SessionView {
                account_id: store.account_by_refresh_token(refresh_token)->Some_0.id,
                session_token: token_for(
                    store.account_by_refresh_token(refresh_token)->Some_0.id,
                    session_key,
                ),
                expire_at: (now + 7 * 24 * 60 * 60) as u64,
            },
        ),
{
}

/// A current refresh token is good for one rotation. Presenting it
/// succeeds; the token that comes back is then current; and the presented
/// one, unless the new token happens to equal it, is refused from then on
/// and changes nothing. This holds where no account of another identity
/// holds the same token.
pub proof fn rotation_is_single_use(
    store: StoreView,
    refresh_token: Seq<char>,
    now: u64,
    session_key: u64,
    refresh_key: u64,
    later: u64,
    next_session_key: u64,
    next_refresh_key: u64,
)
    requires
        store.account_by_refresh_token(refresh_token) is Some,
        sole_holder(store, refresh_token),
    ensures
        ({
            let after = store_after_rotate(store, refresh_token, now, session_key, refresh_key);
            &&& rotate_outcome(store, refresh_token, session_key, refresh_key) matches Ok(response)
                && {
                &&& rotate_outcome(
                    after,
                    response.refresh_token,
                    next_session_key,
                    next_refresh_key,
                ) is Ok
                &&& response.refresh_token != refresh_token ==> {
                    &&& rotate_outcome(after, refresh_token, next_session_key, next_refresh_key)
                        == Err::<ResponseView, ApiError>(ApiError::NotAuthorized)
                    &&& store_after_rotate(
                        after,
                        refresh_token,
                        later,
                        next_session_key,
                        next_refresh_key,
                    ) == after
                }
            }
        }),
{
    let held = |row: AccountView| row.refresh_token == Some(refresh_token);
    let at = lemma_first_match_found(store.accounts, held);
    let account_id = store.accounts[at].id;
    let renewed = token_for(account_id, refresh_key);
    let after = store_after_rotate(store, refresh_token, now, session_key, refresh_key);
    assert(after.accounts[at].refresh_token == Some(renewed));
    lemma_some_match(after.accounts, |row: AccountView| row.refresh_token == Some(renewed), at);
    if renewed != refresh_token {
        assert forall|i: int| 0 <= i < after.accounts.len() implies !held(
            #[trigger] after.accounts[i],
        ) by {
            if store.accounts[i].id != account_id && store.accounts[i].refresh_token == Some(
                refresh_token,
            ) {
                assert(store.accounts[at].refresh_token == Some(refresh_token));
            }
        }
        lemma_no_match(after.accounts, held);
    }
}

/// Whatever keys were drawn, a login that succeeded left the returned
/// refresh token with the account of that username, and added, as the last
/// row, a session that carries the returned session token and expires by
/// the policy.
pub proof fn successful_login_is_recorded(
    before: StoreView,
    json_data: LoginData,
    now: u64,
    after: StoreView,
    response: ResponseView,
)
    requires
        logged_in(before, json_data, now, after, response),
        now + policy_duration(json_data.remember) <= u64::MAX,
    ensures
        after.account_by_username(json_data.username@) matches Some(account)
            && account.refresh_token == Some(response.refresh_token),
        after.sessions.len() > 0,
        after.sessions.last().session_token == response.session,
        after.sessions.last().expire_at == now + policy_duration(json_data.remember),
{
    let (session_key, refresh_key) = choose|session_key: u64, refresh_key: u64| #[trigger]
        logged_in_with(before, json_data, now, session_key, refresh_key, after, response);
    login_stores_the_returned_refresh_token(
        before,
        json_data.username@,
        json_data.pw@,
        json_data.remember,
        now,
        session_key,
        refresh_key,
    );
    login_session_expires_by_policy(
        before,
        json_data.username@,
        json_data.pw@,
        json_data.remember,
        now,
        session_key,
        refresh_key,
    );
}

/// Whatever keys were drawn, a refresh that succeeded made the returned
/// refresh token current and added a session of seven days that carries the
/// returned session token. Where no account of another identity held the
/// presented token, and the returned token differs from it, the presented
/// token is current no more.
pub proof fn successful_refresh_is_recorded(
    before: StoreView,
    refresh_token: Seq<char>,
    now: u64,
    after: StoreView,
    response: ResponseView,
)
    requires
        refreshed(before, refresh_token, now, after, response),
        now + refreshed_duration() <= u64::MAX,
    ensures
        after.account_by_refresh_token(response.refresh_token) is Some,
        sole_holder(before, refresh_token) && response.refresh_token != refresh_token
            ==> after.account_by_refresh_token(refresh_token) is None,
        after.sessions.len() == before.sessions.len() + 1,
        after.sessions.last().session_token == response.session,
        after.sessions.last().expire_at == now + 7 * 24 * 60 * 60,
{
    let (session_key, refresh_key) = choose|session_key: u64, refresh_key: u64| #[trigger]
        refreshed_with(before, refresh_token, now, session_key, refresh_key, after, response);
    refreshed_session_expires_in_a_week(before, refresh_token, now, session_key, refresh_key);
    let held = |row: AccountView| row.refresh_token == Some(refresh_token);
    let at = lemma_first_match_found(before.accounts, held);
    assert(after.accounts[at].refresh_token == Some(response.refresh_token));
    lemma_some_match(
        after.accounts,
        |row: AccountView| row.refresh_token == Some(response.refresh_token),
        at,
    );
    if sole_holder(before, refresh_token) {
        rotation_is_single_use(
            before,
            refresh_token,
            now,
            session_key,
            refresh_key,
            now,
            session_key,
            refresh_key,
        );
    }
}

/// The row is a session of the account that expired before `now`.
pub open spec fn expired_of(row: SessionView, account_id: u64, now: u64) -> bool {
    row.account_id == account_id && row.expire_at < now
}

/// No two session rows carry the same token.
pub open spec fn distinct_session_tokens(sessions: Seq<SessionView>) -> bool {
    forall|i: int, j: int|
        0 <= i < j < sessions.len() ==> (#[trigger] sessions[i]).session_token != (
        #[trigger] sessions[j]).session_token
}

/// The tokens that a sweep deletes are those of the account's expired
/// sessions.
pub proof fn swept_tokens(store: StoreView, account_id: u64, now: u64, token: Seq<char>)
    ensures
        expired_tokens(store.sessions_of(account_id), now).contains(token) <==> exists|k: int|
            0 <= k < store.sessions.len() && expired_of(
                #[trigger] store.sessions[k],
                account_id,
                now,
            ) && store.sessions[k].session_token == token,
{
    let of_account = |row: SessionView| row.account_id == account_id;
    let expired = |row: SessionView| row.expire_at < now;
    let mine = store.sessions.filter(of_account);
    let gone = mine.filter(expired);
    let doomed = expired_tokens(mine, now);
    if doomed.contains(token) {
        let e = choose|e: int| 0 <= e < doomed.len() && doomed[e] == token;
        let row = gone[e];
        mine.lemma_filter_pred(expired, e);
        assert(gone.contains(row));
        mine.lemma_filter_contains_rev(expired, row);
        let m = choose|m: int| 0 <= m < mine.len() && mine[m] == row;
        store.sessions.lemma_filter_pred(of_account, m);
        store.sessions.lemma_filter_contains_rev(of_account, row);
        let k = choose|k: int| 0 <= k < store.sessions.len() && store.sessions[k] == row;
        assert(expired_of(store.sessions[k], account_id, now) && store.sessions[k].session_token
            == token);
    }
    if exists|k: int|
        0 <= k < store.sessions.len() && expired_of(#[trigger] store.sessions[k], account_id, now)
            && store.sessions[k].session_token == token {
        let k = choose|k: int|
            0 <= k < store.sessions.len() && expired_of(
                #[trigger] store.sessions[k],
                account_id,
                now,
            ) && store.sessions[k].session_token == token;
        store.sessions.lemma_filter_contains(of_account, k);
        let m = choose|m: int| 0 <= m < mine.len() && mine[m] == store.sessions[k];
        mine.lemma_filter_contains(expired, m);
        let e = choose|e: int| 0 <= e < gone.len() && gone[e] == mine[m];
        assert(doomed[e] == token);
    }
}

/// A session row that is there after a sweep was there before, and is not
/// an expired session of the account.
pub proof fn no_expired_session_survives(
    store: StoreView,
    account_id: u64,
    now: u64,
    row: SessionView,
)
    requires
        swept(store, account_id, now).sessions.contains(row),
    ensures
        store.sessions.contains(row),
        !expired_of(row, account_id, now),
{
    let doomed = expired_tokens(store.sessions_of(account_id), now);
    let kept = |other: SessionView| !doomed.contains(other.session_token);
    let after = store.sessions.filter(kept);
    let at = choose|at: int| 0 <= at < after.len() && after[at] == row;
    store.sessions.lemma_filter_pred(kept, at);
    store.sessions.lemma_filter_contains_rev(kept, row);
    let k = choose|k: int| 0 <= k < store.sessions.len() && store.sessions[k] == row;
    swept_tokens(store, account_id, now, row.session_token);
}

/// Where no two sessions share a token, a sweep removes the expired
/// sessions of the account and nothing else: the sessions of other accounts
/// and those that have not expired stay, in their order. The accounts are
/// not touched.
pub proof fn sweep_removes_exactly_the_expired(store: StoreView, account_id: u64, now: u64)
    requires
        distinct_session_tokens(store.sessions),
    ensures
        swept(store, account_id, now).sessions == store.sessions.filter(
            |row: SessionView| !expired_of(row, account_id, now),
        ),
        swept(store, account_id, now).accounts == store.accounts,
{
    let doomed = expired_tokens(store.sessions_of(account_id), now);
    let kept = |row: SessionView| !doomed.contains(row.session_token);
    let live = |row: SessionView| !expired_of(row, account_id, now);
    assert forall|i: int| 0 <= i < store.sessions.len() implies kept(#[trigger] store.sessions[i])
        == live(store.sessions[i]) by {
        let row = store.sessions[i];
        swept_tokens(store, account_id, now, row.session_token);
        if doomed.contains(row.session_token) {
            let k = choose|k: int|
                0 <= k < store.sessions.len() && expired_of(
                    #[trigger] store.sessions[k],
                    account_id,
                    now,
                ) && store.sessions[k].session_token == row.session_token;
            assert(k == i);
        }
    }
    lemma_filter_agree(store.sessions, kept, live);
}

proof fn lemma_decimal_len(n: nat)
    ensures
        decimal(n).len() >= 1,
        n >= 10 ==> decimal(n).len() >= 2,
    decreases n,
{
    if n >= 10 {
        lemma_decimal_len(n / 10);
    }
}

/// Different numbers have different decimal digits.
pub proof fn decimal_is_injective(a: nat, b: nat)
    requires
        decimal(a) == decimal(b),
    ensures
        a == b,
    decreases a,
{
    lemma_decimal_len(a);
    lemma_decimal_len(b);
    if a < 10 {
        assert(decimal(a).len() == 1);
        assert(b < 10);
        assert(decimal(a)[0] == (48 + a) as u8);
        assert(decimal(b)[0] == (48 + b) as u8);
    } else {
        assert(b >= 10) by {
            if b < 10 {
                assert(decimal(b).len() == 1);
            }
        }
        assert(decimal(a).drop_last() =~= decimal(a / 10));
        assert(decimal(b).drop_last() =~= decimal(b / 10));
        assert(decimal(a).last() == (48 + a % 10) as u8);
        assert(decimal(b).last() == (48 + b % 10) as u8);
        decimal_is_injective(a / 10, b / 10);
        assert(a % 10 == b % 10);
        assert(a == 10 * (a / 10) + a % 10);
        assert(b == 10 * (b / 10) + b % 10);
    }
}

/// What is hashed into a token tells the account and the key: two tokens
/// are made from the same bytes only where both the account and the key are
/// the same.
pub proof fn token_source_is_injective(
    account_id: u64,
    key: u64,
    other_account_id: u64,
    other_key: u64,
)
    requires
        token_source(account_id, key) == token_source(other_account_id, other_key),
    ensures
        account_id == other_account_id,
        key == other_key,
{
    lemma_auto_spec_u64_to_from_le_bytes();
    let digits = decimal(account_id as nat);
    let other_digits = decimal(other_account_id as nat);
    let source = token_source(account_id, key);
    assert(source.len() == digits.len() + 8);
    assert(source.len() == other_digits.len() + 8);
    assert(source.subrange(0, digits.len() as int) =~= digits);
    assert(source.subrange(0, digits.len() as int) =~= other_digits);
    assert(source.subrange(digits.len() as int, source.len() as int) =~= spec_u64_to_le_bytes(key));
    assert(source.subrange(digits.len() as int, source.len() as int) =~= spec_u64_to_le_bytes(
        other_key,
    ));
    decimal_is_injective(account_id as nat, other_account_id as nat);
}

} // verus!
