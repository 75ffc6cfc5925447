use crate::seq_facts::{first_match, lemma_first_match, lemma_no_match};
use vstd::prelude::*;

verus! {

/// A row of the `login` table.
#[derive(Debug, PartialEq, Eq)]
pub struct Account {
    pub id: u64,
    pub username: String,
    pub salt: String,
    pub password_hash: String,
    pub refresh_token: Option<String>,
}

/// A row of the `session` table.
#[derive(Debug, PartialEq, Eq)]
pub struct Session {
    pub account_id: u64,
    pub session_token: String,
    pub expire_at: u64,
}

/// A write to the tables, as the journal records it.
#[derive(Debug, PartialEq, Eq)]
pub enum Mutation {
    DeleteSession(String),
    InsertSession(Session),
    UpdateRefreshToken(u64, String),
}

pub struct AccountView {
    pub id: u64,
    pub username: Seq<char>,
    pub salt: Seq<char>,
    pub password_hash: Seq<char>,
    pub refresh_token: Option<Seq<char>>,
}

pub struct SessionView {
    pub account_id: u64,
    pub session_token: Seq<char>,
    pub expire_at: u64,
}

pub enum MutationView {
    DeleteSession(Seq<char>),
    InsertSession(SessionView),
    UpdateRefreshToken(u64, Seq<char>),
}

impl View for Account {
    type V = AccountView;

    open spec fn view(&self) -> AccountView {
        AccountView {
            id: self.id,
            username: self.username@,
            salt: self.salt@,
            password_hash: self.password_hash@,
            refresh_token: match self.refresh_token {
                Some(token) => Some(token@),
                None => None,
            },
        }
    }
}

impl View for Session {
    type V = SessionView;

    open spec fn view(&self) -> SessionView {
        SessionView {
            account_id: self.account_id,
            session_token: self.session_token@,
            expire_at: self.expire_at,
        }
    }
}

impl View for Mutation {
    type V = MutationView;

    open spec fn view(&self) -> MutationView {
        match *self {
            Mutation::DeleteSession(token) => MutationView::DeleteSession(token@),
            Mutation::InsertSession(session) => MutationView::InsertSession(session@),
            Mutation::UpdateRefreshToken(account_id, token) => MutationView::UpdateRefreshToken(
                account_id,
                token@,
            ),
        }
    }
}

impl Clone for Account {
    fn clone(&self) -> (copy: Account)
        ensures
            copy@ == self@,
    {
        Account {
            id: self.id,
            username: self.username.clone(),
            salt: self.salt.clone(),
            password_hash: self.password_hash.clone(),
            refresh_token: match &self.refresh_token {
                Some(token) => Some(token.clone()),
                None => None,
            },
        }
    }
}

impl Clone for Session {
    fn clone(&self) -> (copy: Session)
        ensures
            copy@ == self@,
    {
        Session {
            account_id: self.account_id,
            session_token: self.session_token.clone(),
            expire_at: self.expire_at,
        }
    }
}

impl Clone for Mutation {
    fn clone(&self) -> (copy: Mutation)
        ensures
            copy@ == self@,
    {
        match self {
            Mutation::DeleteSession(token) => Mutation::DeleteSession(token.clone()),
            Mutation::InsertSession(session) => Mutation::InsertSession(session.clone()),
            Mutation::UpdateRefreshToken(account_id, token) => Mutation::UpdateRefreshToken(
                *account_id,
                token.clone(),
            ),
        }
    }
}

pub open spec fn account_views(rows: Seq<Account>) -> Seq<AccountView> {
    rows.map_values(|row: Account| row@)
}

pub open spec fn session_views(rows: Seq<Session>) -> Seq<SessionView> {
    rows.map_values(|row: Session| row@)
}

pub open spec fn mutation_views(writes: Seq<Mutation>) -> Seq<MutationView> {
    writes.map_values(|write: Mutation| write@)
}

pub open spec fn found_view(found: Option<Account>) -> Option<AccountView> {
    match found {
        Some(account) => Some(account@),
        None => None,
    }
}

/// No two accounts share an identity or a username.
pub open spec fn distinct_accounts(accounts: Seq<AccountView>) -> bool {
    forall|i: int, j: int|
        0 <= i < j < accounts.len() ==> (#[trigger] accounts[i]).id != (#[trigger] accounts[j]).id
            && accounts[i].username != accounts[j].username
}

/// The two tables and the writes made to them so far, oldest first.
pub struct StoreView {
    pub accounts: Seq<AccountView>,
    pub sessions: Seq<SessionView>,
    pub journal: Seq<MutationView>,
}

impl StoreView {
    pub open spec fn wf(self) -> bool {
        distinct_accounts(self.accounts)
    }

    /// The account of that username: the first match in table order.
    pub open spec fn account_by_username(self, username: Seq<char>) -> Option<AccountView> {
        first_match(self.accounts, |row: AccountView| row.username == username)
    }

    /// The account whose current refresh token is `token`: the first match in
    /// table order. An account without a refresh token matches nothing.
    pub open spec fn account_by_refresh_token(self, token: Seq<char>) -> Option<AccountView> {
        first_match(self.accounts, |row: AccountView| row.refresh_token == Some(token))
    }

    /// The sessions of an account, in table order.
    pub open spec fn sessions_of(self, account_id: u64) -> Seq<SessionView> {
        self.sessions.filter(|row: SessionView| row.account_id == account_id)
    }

    /// Every session row that carries `token` is gone; the rest keep their
    /// order.
    pub open spec fn delete_session(self, token: Seq<char>) -> StoreView {
        StoreView {
            accounts: self.accounts,
            sessions: self.sessions.filter(|row: SessionView| row.session_token != token),
            journal: self.journal.push(MutationView::DeleteSession(token)),
        }
    }

    /// One more session row, after all others.
    pub open spec fn insert_session(self, session: SessionView) -> StoreView {
        StoreView {
            accounts: self.accounts,
            sessions: self.sessions.push(session),
            journal: self.journal.push(MutationView::InsertSession(session)),
        }
    }

    /// The refresh token of every account of that identity is overwritten.
    pub open spec fn update_refresh_token(self, account_id: u64, token: Seq<char>) -> StoreView {
        StoreView {
            accounts: self.accounts.map_values(
                |row: AccountView|
                    if row.id == account_id {
                        AccountView {
                            id: row.id,
                            username: row.username,
                            salt: row.salt,
                            password_hash: row.password_hash,
                            refresh_token: Some(token),
                        }
                    } else {
                        row
                    },
            ),
            sessions: self.sessions,
            journal: self.journal.push(MutationView::UpdateRefreshToken(account_id, token)),
        }
    }
}

/// The rows of the `login` table: no two of them share an identity or a
/// username.
struct AccountTable {
    rows: Vec<Account>,
}

impl AccountTable {
    #[verifier::type_invariant]
    spec fn well_formed(self) -> bool {
        distinct_accounts(account_views(self.rows@))
    }
}

/// The `login` and `session` tables in memory, with a journal of the writes
/// made since the rows were loaded. A caller that keeps the tables elsewhere
/// loads the rows that a request concerns, lets the request run, and makes
/// the journalled writes there.
pub struct Store {
    accounts: AccountTable,
    sessions: Vec<Session>,
    journal: Vec<Mutation>,
}

impl View for Store {
    type V = StoreView;

    closed spec fn view(&self) -> StoreView {
        StoreView {
            accounts: account_views(self.accounts.rows@),
            sessions: session_views(self.sessions@),
            journal: mutation_views(self.journal@),
        }
    }
}

impl Store {
    /// Takes rows as the content of the two tables. The rows are refused
    /// where two accounts share an identity or a username.
    pub fn from_rows(accounts: Vec<Account>, sessions: Vec<Session>) -> (loaded: Option<Store>)
        ensures
            loaded is Some <==> distinct_accounts(account_views(accounts@)),
            loaded matches Some(store) ==> store@ == (StoreView {
                accounts: account_views(accounts@),
                sessions: session_views(sessions@),
                journal: Seq::empty(),
            }),
    {
        let ghost rows = account_views(accounts@);
        let mut j: usize = 0;
        while j < accounts.len()
            invariant
                j <= accounts.len(),
                rows == account_views(accounts@),
                forall|a: int, b: int|
                    0 <= a < b < j ==> (#[trigger] rows[a]).id != (#[trigger] rows[b]).id
                        && rows[a].username != rows[b].username,
            decreases accounts.len() - j,
        {
            let mut i: usize = 0;
            while i < j
                invariant
                    i <= j < accounts.len(),
                    rows == account_views(accounts@),
                    forall|a: int|
                        0 <= a < i ==> (#[trigger] rows[a]).id != rows[j as int].id
                            && rows[a].username != rows[j as int].username,
                decreases j - i,
            {
                if accounts[i].id == accounts[j].id || accounts[i].username == accounts[j].username {
                    assert(rows[i as int].id == rows[j as int].id || rows[i as int].username
                        == rows[j as int].username);
                    return None;
                }
                i += 1;
            }
            j += 1;
        }
        let store = Store {
            accounts: AccountTable { rows: accounts },
            sessions,
            journal: Vec::new(),
        };
        assert(store@.journal =~= Seq::empty());
        Some(store)
    }

    /// The account of that username, if the table holds one: a copy of the
    /// first row that matches.
    #[verifier::loop_isolation(false)]
    pub fn find_account_by_username(&self, username: &str) -> (found: Option<Account>)
        ensures
            found_view(found) == self@.account_by_username(username@),
    {
        let needle = String::from_str(username);
        let ghost rows = self@.accounts;
        let ghost wanted = |row: AccountView| row.username == username@;
        let mut i: usize = 0;
        while i < self.accounts.rows.len()
            invariant
                i <= self.accounts.rows.len(),
                rows == account_views(self.accounts.rows@),
                needle@ == username@,
                forall|k: int| 0 <= k < i ==> (#[trigger] rows[k]).username != username@,
            decreases self.accounts.rows.len() - i,
        {
            if self.accounts.rows[i].username == needle {
                proof {
                    lemma_first_match(rows, wanted, i as int);
                }
                return Some(self.accounts.rows[i].clone());
            }
            i += 1;
        }
        proof {
            lemma_no_match(rows, wanted);
        }
        None
    }

    /// The account whose current refresh token is `token`, if there is one: a
    /// copy of the first row that matches. The comparison is exact.
    #[verifier::loop_isolation(false)]
    pub fn find_account_by_refresh_token(&self, token: &str) -> (found: Option<Account>)
        ensures
            found_view(found) == self@.account_by_refresh_token(token@),
    {
        let needle = String::from_str(token);
        let ghost rows = self@.accounts;
        let ghost wanted = |row: AccountView| row.refresh_token == Some(token@);
        let mut i: usize = 0;
        while i < self.accounts.rows.len()
            invariant
                i <= self.accounts.rows.len(),
                rows == account_views(self.accounts.rows@),
                needle@ == token@,
                forall|k: int| 0 <= k < i ==> (#[trigger] rows[k]).refresh_token != Some(token@),
            decreases self.accounts.rows.len() - i,
        {
            let holds = match &self.accounts.rows[i].refresh_token {
                Some(current) => *current == needle,
                None => false,
            };
            if holds {
                proof {
                    lemma_first_match(rows, wanted, i as int);
                }
                return Some(self.accounts.rows[i].clone());
            }
            i += 1;
        }
        proof {
            lemma_no_match(rows, wanted);
        }
        None
    }

    /// Copies of the session rows of an account, in table order.
    #[verifier::loop_isolation(false)]
    pub fn find_sessions(&self, account_id: u64) -> (found: Vec<Session>)
        ensures
            session_views(found@) == self@.sessions_of(account_id),
    {
        let ghost rows = self@.sessions;
        let ghost wanted = |row: SessionView| row.account_id == account_id;
        let mut found: Vec<Session> = Vec::new();
        let mut i: usize = 0;
        proof {
            lemma_no_match(rows.take(0), wanted);
            assert(session_views(found@) =~= rows.take(0).filter(wanted));
        }
        while i < self.sessions.len()
            invariant
                i <= self.sessions.len(),
                rows == session_views(self.sessions@),
                session_views(found@) == rows.take(i as int).filter(wanted),
            decreases self.sessions.len() - i,
        {
            proof {
                Seq::lemma_filter_push(rows.take(i as int), rows[i as int], wanted);
                assert(rows.take(i + 1) =~= rows.take(i as int).push(rows[i as int]));
            }
            if self.sessions[i].account_id == account_id {
                let row = self.sessions[i].clone();
                assert(session_views(found@.push(row)) =~= session_views(found@).push(row@));
                found.push(row);
            }
            i += 1;
        }
        assert(rows.take(i as int) =~= rows);
        found
    }

    /// Deletes every session row that carries `token` and journals the
    /// deletion, also where no row carried it.
    #[verifier::loop_isolation(false)]
    pub fn delete_session(&mut self, token: &str)
        ensures
            final(self)@.wf(),
            final(self)@ == old(self)@.delete_session(token@),
    {
        proof {
            use_type_invariant(&self.accounts);
        }
        let needle = String::from_str(token);
        let ghost rows = self@.sessions;
        let ghost kept_rows = |row: SessionView| row.session_token != token@;
        let mut kept: Vec<Session> = Vec::new();
        let mut i: usize = 0;
        proof {
            lemma_no_match(rows.take(0), kept_rows);
            assert(session_views(kept@) =~= rows.take(0).filter(kept_rows));
        }
        while i < self.sessions.len()
            invariant
                i <= self.sessions.len(),
                rows == session_views(self.sessions@),
                needle@ == token@,
                session_views(kept@) == rows.take(i as int).filter(kept_rows),
            decreases self.sessions.len() - i,
        {
            proof {
                Seq::lemma_filter_push(rows.take(i as int), rows[i as int], kept_rows);
                assert(rows.take(i + 1) =~= rows.take(i as int).push(rows[i as int]));
            }
            if self.sessions[i].session_token != needle {
                let row = self.sessions[i].clone();
                assert(session_views(kept@.push(row)) =~= session_views(kept@).push(row@));
                kept.push(row);
            }
            i += 1;
        }
        assert(rows.take(i as int) =~= rows);
        let write = Mutation::DeleteSession(needle);
        assert(mutation_views(self.journal@.push(write)) =~= mutation_views(self.journal@).push(
            write@,
        ));
        self.sessions = kept;
        self.journal.push(write);
    }

    /// Adds a session row after all others and journals it. Nothing is
    /// replaced, and the token is not compared with those that are there.
    pub fn insert_session(&mut self, account_id: u64, token: String, expire_at: u64)
        ensures
            final(self)@.wf(),
            final(self)@ == old(self)@.insert_session(
                SessionView { account_id, session_token: token@, expire_at },
            ),
    {
        proof {
            use_type_invariant(&self.accounts);
        }
        let row = Session { account_id, session_token: token, expire_at };
        let write = Mutation::InsertSession(row.clone());
        assert(session_views(self.sessions@.push(row)) =~= session_views(self.sessions@).push(row@));
        assert(mutation_views(self.journal@.push(write)) =~= mutation_views(self.journal@).push(
            write@,
        ));
        self.sessions.push(row);
        self.journal.push(write);
    }

    /// Overwrites the refresh token of an account and journals the write.
    /// The token that was there is no longer current.
    pub fn update_refresh_token(&mut self, account_id: u64, new_token: String)
        ensures
            final(self)@.wf(),
            final(self)@ == old(self)@.update_refresh_token(account_id, new_token@),
    {
        proof {
            use_type_invariant(&self.accounts);
        }
        let ghost rows = self@.accounts;
        let ghost after = self@.update_refresh_token(account_id, new_token@).accounts;
        let mut updated: Vec<Account> = Vec::new();
        let mut i: usize = 0;
        assert(account_views(updated@) =~= after.take(0));
        while i < self.accounts.rows.len()
            invariant
                i <= self.accounts.rows.len(),
                rows == account_views(self.accounts.rows@),
                after == old(self)@.update_refresh_token(account_id, new_token@).accounts,
                rows == old(self)@.accounts,
                account_views(updated@) == after.take(i as int),
            decreases self.accounts.rows.len() - i,
        {
            let current = &self.accounts.rows[i];
            let row = if current.id == account_id {
                Account {
                    id: current.id,
                    username: current.username.clone(),
                    salt: current.salt.clone(),
                    password_hash: current.password_hash.clone(),
                    refresh_token: Some(new_token.clone()),
                }
            } else {
                current.clone()
            };
            assert(account_views(updated@.push(row)) =~= account_views(updated@).push(row@));
            assert(after.take(i + 1) =~= after.take(i as int).push(after[i as int]));
            updated.push(row);
            i += 1;
        }
        assert(after.take(i as int) =~= after);
        let write = Mutation::UpdateRefreshToken(account_id, new_token);
        assert(mutation_views(self.journal@.push(write)) =~= mutation_views(self.journal@).push(
            write@,
        ));
        self.accounts = AccountTable { rows: updated };
        self.journal.push(write);
    }

    /// The writes made since the rows were loaded, oldest first.
    pub fn journal(&self) -> (writes: &Vec<Mutation>)
        ensures
            mutation_views(writes@) == self@.journal,
    {
        &self.journal
    }

    /// The rows of the `login` table. As in every store, no two of them
    /// share an identity or a username.
    pub fn accounts(&self) -> (rows: &Vec<Account>)
        ensures
            account_views(rows@) == self@.accounts,
            self@.wf(),
    {
        proof {
            use_type_invariant(&self.accounts);
        }
        &self.accounts.rows
    }

    /// The rows of the `session` table.
    pub fn sessions(&self) -> (rows: &Vec<Session>)
        ensures
            session_views(rows@) == self@.sessions,
    {
        &self.sessions
    }
}

} // verus!
