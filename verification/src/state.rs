//! The service-side account state: registered users with their pagination
//! cursors, outstanding login tokens, and exchanged-but-unclaimed listing
//! credentials. The webserver and the storage engine live outside; every
//! state transition an endpoint performs is decided and applied here.

use vstd::prelude::*;

use crate::assoc::{
    assoc_find, assoc_get, assoc_get_ref, assoc_has, assoc_remove_exec, assoc_removed,
    assoc_upsert_exec, assoc_wf,
};
use crate::auth::{sha256_hex_of, Credentials, GoogleAuth, Token};
use crate::store::clone_opt_string;

verus! {

/// How many fresh credentials are drawn before registration gives up
/// rather than keep colliding with existing ids.
pub const REGISTER_DRAWS: u64 = 16;

/// An error reported to the caller of an endpoint: a message and the
/// HTTP status it travels with.
#[derive(Debug)]
pub struct CustomError(pub String, pub u16);

impl CustomError {
    pub fn new(msg: String, status: u16) -> (r: CustomError)
        ensures
            r.0 == msg,
            r.1 == status,
    {
        CustomError(msg, status)
    }
}

/// A listing credential row, as the storage engine hands it out.
pub struct GoogleAuthDB {
    pub id: i32,
    pub user_id: String,
    pub token: String,
    pub token_expiry_sec_epoch: u64,
    pub refresh_token: String,
}

/// A listing credential row about to be inserted.
pub struct NewGoogleAuth {
    pub user_id: String,
    pub token: String,
    pub token_expiry_sec_epoch: u64,
    pub refresh_token: String,
}

/// A login-token row, as the storage engine hands it out.
pub struct TokenDB {
    pub id: i32,
    pub user_id: String,
    pub token: String,
    pub expiry: u64,
}

/// A login-token row about to be inserted.
pub struct NewToken {
    pub user_id: String,
    pub token: String,
    pub expiry: u64,
}

/// A user row, as the storage engine hands it out.
pub struct UserDB {
    pub id: String,
    pub hashed_passcode: String,
    pub crt: u64,
}

/// A user row, in the shape the account table stores.
pub struct UserRow {
    pub id: String,
    pub hashed_passcode: String,
    pub initial_scan_completed: bool,
    pub next_token: Option<String>,
    pub prev_token: Option<String>,
}

/// A login-token row: attached to its user when one is named, else an
/// outstanding login key.
pub struct TokenRow {
    pub token: String,
    pub user_id: Option<String>,
}

/// A listing-credential row: attached to its user when one is named,
/// else filed as unclaimed under its claim token.
pub struct GoogleTokenRow {
    pub associated_token: Option<String>,
    pub token: String,
    pub refresh_token: String,
    pub token_expiry_sec_epoch: u64,
    pub user_id: Option<String>,
}

/// The login tokens the rows attach to one user, in row order.
pub open spec fn spec_tokens_for(rows: Seq<TokenRow>, uid: Seq<char>) -> Seq<String>
    decreases rows.len(),
{
    if rows.len() == 0 {
        Seq::<String>::empty()
    } else {
        let prev = spec_tokens_for(rows.drop_last(), uid);
        if rows.last().user_id matches Some(u) && u@ == uid {
            prev.push(rows.last().token)
        } else {
            prev
        }
    }
}

/// The listing credential the rows attach to one user: the last row
/// naming the user wins, as with repeated writes.
pub open spec fn spec_google_for(rows: Seq<GoogleTokenRow>, uid: Seq<char>) -> Option<GoogleAuth>
    decreases rows.len(),
{
    if rows.len() == 0 {
        None
    } else if rows.last().user_id matches Some(u) && u@ == uid {
        Some(
            GoogleAuth {
                token: rows.last().token,
                token_expiry_sec_epoch: rows.last().token_expiry_sec_epoch,
                refresh_token: rows.last().refresh_token,
            },
        )
    } else {
        spec_google_for(rows.drop_last(), uid)
    }
}

/// The unclaimed-credential table the rows build up: each row naming no
/// user is filed under its claim token.
pub open spec fn spec_unclaimed_after(rows: Seq<GoogleTokenRow>) -> Seq<(String, GoogleAuth)>
    decreases rows.len(),
{
    if rows.len() == 0 {
        Seq::<(String, GoogleAuth)>::empty()
    } else {
        let prev = spec_unclaimed_after(rows.drop_last());
        if rows.last().user_id is None {
            match rows.last().associated_token {
                Some(key) => crate::assoc::assoc_upsert(
                    prev,
                    key,
                    GoogleAuth {
                        token: rows.last().token,
                        token_expiry_sec_epoch: rows.last().token_expiry_sec_epoch,
                        refresh_token: rows.last().refresh_token,
                    },
                ),
                None => prev,
            }
        } else {
            prev
        }
    }
}

/// Everything the service tracks for one account, including its
/// pagination cursor into the remote listing.
pub struct UserData {
    pub hashed_passcode: String,
    pub tokens: Vec<String>,
    pub google_auth: Option<GoogleAuth>,
    /// If the initial scan has been completed.
    pub initial_scan_complete: bool,
    /// The token for the next page.
    pub next_token: Option<String>,
    /// The previous token that was used, so the user can repeat a request
    /// if required.
    pub prev_token: Option<String>,
}

impl UserData {
    /// The listing token for this user's next page request: the previous
    /// page's token on a reload, the continuation otherwise.
    pub fn request_token(&self, reload: bool) -> (r: Option<String>)
        ensures
            r == if reload {
                self.prev_token
            } else {
                self.next_token
            },
    {
        if reload {
            clone_opt_string(&self.prev_token)
        } else {
            clone_opt_string(&self.next_token)
        }
    }

    /// Advances this user's cursor past a completed page; an absent
    /// continuation token completes the initial scan.
    pub fn advance_cursor(&mut self, next: Option<String>)
        ensures
            *final(self) == (UserData {
                prev_token: old(self).next_token,
                next_token: next,
                initial_scan_complete: old(self).initial_scan_complete || next is None,
                ..*old(self)
            }),
    {
        self.prev_token = clone_opt_string(&self.next_token);
        let end = match &next {
            Some(_) => false,
            None => true,
        };
        self.next_token = next;
        if end {
            self.initial_scan_complete = true;
        }
    }
}

/// Collects the login tokens the rows attach to `uid`, in row order.
fn tokens_for_user(rows: &Vec<TokenRow>, uid: &String) -> (r: Vec<String>)
    ensures
        r@ == spec_tokens_for(rows@, uid@),
{
    let n = rows.len();
    let mut out: Vec<String> = Vec::new();
    let mut i: usize = 0;
    while i < n
        invariant
            0 <= i <= n,
            n == rows@.len(),
            out@ == spec_tokens_for(rows@.subrange(0, i as int), uid@),
        decreases n - i,
    {
        proof {
            assert(rows@.subrange(0, i as int + 1).drop_last() =~= rows@.subrange(0, i as int));
            assert(rows@.subrange(0, i as int + 1).last() == rows@[i as int]);
        }
        match &rows[i].user_id {
            Some(u) => {
                if *u == *uid {
                    out.push(rows[i].token.clone());
                }
            },
            None => {},
        }
        i = i + 1;
    }
    proof {
        assert(rows@.subrange(0, n as int) =~= rows@);
    }
    out
}

/// The listing credential the rows attach to `uid`, last row winning.
fn google_for_user(rows: &Vec<GoogleTokenRow>, uid: &String) -> (r: Option<GoogleAuth>)
    ensures
        r == spec_google_for(rows@, uid@),
{
    let n = rows.len();
    let mut out: Option<GoogleAuth> = None;
    let mut i: usize = 0;
    while i < n
        invariant
            0 <= i <= n,
            n == rows@.len(),
            out == spec_google_for(rows@.subrange(0, i as int), uid@),
        decreases n - i,
    {
        proof {
            assert(rows@.subrange(0, i as int + 1).drop_last() =~= rows@.subrange(0, i as int));
            assert(rows@.subrange(0, i as int + 1).last() == rows@[i as int]);
        }
        match &rows[i].user_id {
            Some(u) => {
                if *u == *uid {
                    out = Some(
                        GoogleAuth {
                            token: rows[i].token.clone(),
                            token_expiry_sec_epoch: rows[i].token_expiry_sec_epoch,
                            refresh_token: rows[i].refresh_token.clone(),
                        },
                    );
                }
            },
            None => {},
        }
        i = i + 1;
    }
    proof {
        assert(rows@.subrange(0, n as int) =~= rows@);
    }
    out
}

/// The in-memory account state the endpoints operate on.
pub struct AppState {
    pub users: Vec<(String, UserData)>,
    pub auth_keys: Vec<(String, Token)>,
    pub unclaimed_auth_tokens: Vec<(String, GoogleAuth)>,
}

impl AppState {
    /// All three tables are keyed uniquely.
    pub open spec fn wf(&self) -> bool {
        assoc_wf(self.users@) && assoc_wf(self.auth_keys@) && assoc_wf(
            self.unclaimed_auth_tokens@,
        )
    }

    pub fn new() -> (r: AppState)
        ensures
            r.users@.len() == 0,
            r.auth_keys@.len() == 0,
            r.unclaimed_auth_tokens@.len() == 0,
            r.wf(),
    {
        AppState { users: Vec::new(), auth_keys: Vec::new(), unclaimed_auth_tokens: Vec::new() }
    }

    /// Builds the account state from the storage engine's rows: one user
    /// per user row (ids are the table's key, so they are distinct), with
    /// the login tokens and the listing credential its rows attach to it;
    /// rows naming no user become outstanding login keys and unclaimed
    /// credentials.
    pub fn load(
        user_rows: Vec<UserRow>,
        token_rows: Vec<TokenRow>,
        google_rows: Vec<GoogleTokenRow>,
    ) -> (r: AppState)
        requires
            forall|i: int, j: int|
                #![trigger user_rows@[i].id, user_rows@[j].id]
                0 <= i < j < user_rows@.len() ==> user_rows@[i].id@ != user_rows@[j].id@,
        ensures
            r.wf(),
            r.users@.len() == user_rows@.len(),
            forall|i: int|
                0 <= i < user_rows@.len() ==> {
                    let row = #[trigger] user_rows@[i];
                    &&& assoc_has(r.users@, row.id@)
                    &&& ({
                        let u = assoc_get(r.users@, row.id@);
                        &&& u.hashed_passcode == row.hashed_passcode
                        &&& u.initial_scan_complete == row.initial_scan_completed
                        &&& u.next_token == row.next_token
                        &&& u.prev_token == row.prev_token
                        &&& u.tokens@ == spec_tokens_for(token_rows@, row.id@)
                        &&& u.google_auth == spec_google_for(google_rows@, row.id@)
                    })
                },
            r.unclaimed_auth_tokens@ == spec_unclaimed_after(google_rows@),
            forall|i: int|
                (0 <= i < token_rows@.len() && (#[trigger] token_rows@[i]).user_id is None)
                    ==> assoc_has(r.auth_keys@, token_rows@[i].token@),
            forall|k: Seq<char>|
                #[trigger] assoc_has(r.auth_keys@, k) ==> exists|i: int|
                    0 <= i < token_rows@.len() && (#[trigger] token_rows@[i]).user_id is None
                        && token_rows@[i].token@ == k,
    {
        let mut state = AppState::new();

        let ghost orig_users = user_rows@;
        let mut user_rows = user_rows;
        let un = user_rows.len();
        let mut k: usize = 0;
        while k < un
            invariant
                0 <= k <= un,
                un == orig_users.len(),
                user_rows@ == orig_users.subrange(k as int, orig_users.len() as int),
                forall|i: int, j: int|
                    #![trigger orig_users[i].id, orig_users[j].id]
                    0 <= i < j < orig_users.len() ==> orig_users[i].id@ != orig_users[j].id@,
                state.wf(),
                state.users@.len() == k,
                state.auth_keys@.len() == 0,
                state.unclaimed_auth_tokens@.len() == 0,
                forall|key: Seq<char>|
                    #[trigger] assoc_has(state.users@, key) ==> exists|i: int|
                        0 <= i < k && (#[trigger] orig_users[i]).id@ == key,
                forall|i: int|
                    0 <= i < k ==> {
                        let row = #[trigger] orig_users[i];
                        &&& assoc_has(state.users@, row.id@)
                        &&& ({
                            let u = assoc_get(state.users@, row.id@);
                            &&& u.hashed_passcode == row.hashed_passcode
                            &&& u.initial_scan_complete == row.initial_scan_completed
                            &&& u.next_token == row.next_token
                            &&& u.prev_token == row.prev_token
                            &&& u.tokens@ == spec_tokens_for(token_rows@, row.id@)
                            &&& u.google_auth == spec_google_for(google_rows@, row.id@)
                        })
                    },
            decreases un - k,
        {
            let row = user_rows.remove(0);
            proof {
                assert(row == orig_users[k as int]);
                assert(user_rows@ =~= orig_users.subrange(k as int + 1, orig_users.len() as int));
                if assoc_has(state.users@, row.id@) {
                    let w = choose|i: int|
                        0 <= i < k && (#[trigger] orig_users[i]).id@ == row.id@;
                    assert(orig_users[w].id@ != orig_users[k as int].id@);
                }
            }
            let tokens = tokens_for_user(&token_rows, &row.id);
            let google = google_for_user(&google_rows, &row.id);
            let user = UserData {
                hashed_passcode: row.hashed_passcode,
                tokens,
                google_auth: google,
                initial_scan_complete: row.initial_scan_completed,
                next_token: row.next_token,
                prev_token: row.prev_token,
            };
            assoc_upsert_exec(&mut state.users, row.id, user);
            k = k + 1;
        }

        let ghost users_done = state.users@;
        let tn = token_rows.len();
        let mut t: usize = 0;
        while t < tn
            invariant
                0 <= t <= tn,
                tn == token_rows@.len(),
                state.wf(),
                state.users@ == users_done,
                state.unclaimed_auth_tokens@.len() == 0,
                forall|i: int|
                    (0 <= i < t && (#[trigger] token_rows@[i]).user_id is None) ==> assoc_has(
                        state.auth_keys@,
                        token_rows@[i].token@,
                    ),
                forall|key: Seq<char>|
                    #[trigger] assoc_has(state.auth_keys@, key) ==> exists|i: int|
                        0 <= i < t && (#[trigger] token_rows@[i]).user_id is None
                            && token_rows@[i].token@ == key,
            decreases tn - t,
        {
            match &token_rows[t].user_id {
                Some(_) => {},
                None => {
                    let fresh = Token::generate_token(&String::new());
                    assoc_upsert_exec(&mut state.auth_keys, token_rows[t].token.clone(), fresh);
                },
            }
            t = t + 1;
        }

        let ghost keys_done = state.auth_keys@;
        let gn = google_rows.len();
        let mut g: usize = 0;
        while g < gn
            invariant
                0 <= g <= gn,
                gn == google_rows@.len(),
                state.wf(),
                state.users@ == users_done,
                state.auth_keys@ == keys_done,
                state.unclaimed_auth_tokens@ == spec_unclaimed_after(
                    google_rows@.subrange(0, g as int),
                ),
            decreases gn - g,
        {
            proof {
                assert(google_rows@.subrange(0, g as int + 1).drop_last() =~= google_rows@.subrange(
                    0,
                    g as int,
                ));
                assert(google_rows@.subrange(0, g as int + 1).last() == google_rows@[g as int]);
            }
            let named = match &google_rows[g].user_id {
                Some(_) => true,
                None => false,
            };
            if !named {
                match &google_rows[g].associated_token {
                    Some(key) => {
                        let auth = GoogleAuth {
                            token: google_rows[g].token.clone(),
                            token_expiry_sec_epoch: google_rows[g].token_expiry_sec_epoch,
                            refresh_token: google_rows[g].refresh_token.clone(),
                        };
                        assoc_upsert_exec(&mut state.unclaimed_auth_tokens, key.clone(), auth);
                    },
                    None => {},
                }
            }
            g = g + 1;
        }
        proof {
            assert(google_rows@.subrange(0, gn as int) =~= google_rows@);
        }

        state
    }

    /// Whether an account with this username exists.
    pub fn user_exists(&self, username: &str) -> (r: bool)
        ensures
            r == assoc_has(self.users@, username@),
    {
        let key = username.to_owned();
        match assoc_find(&self.users, &key) {
            Some(_) => true,
            None => false,
        }
    }

    /// The account data stored under this username.
    pub fn get_user_by_username(&self, username: &str) -> (r: Option<&UserData>)
        requires
            self.wf(),
        ensures
            match r {
                Some(u) => assoc_has(self.users@, username@) && *u == assoc_get(
                    self.users@,
                    username@,
                ),
                None => !assoc_has(self.users@, username@),
            },
    {
        let key = username.to_owned();
        assoc_get_ref(&self.users, &key)
    }

    /// Writes an account's data under its id, replacing what was there.
    pub fn add_user(&mut self, user_id: String, user_data: UserData)
        requires
            old(self).wf(),
        ensures
            final(self).wf(),
            assoc_has(final(self).users@, user_id@),
            assoc_get(final(self).users@, user_id@) == user_data,
            forall|k: Seq<char>|
                k != user_id@ ==> #[trigger] assoc_has(final(self).users@, k) == assoc_has(
                    old(self).users@,
                    k,
                ),
            final(self).auth_keys == old(self).auth_keys,
            final(self).unclaimed_auth_tokens == old(self).unclaimed_auth_tokens,
    {
        assoc_upsert_exec(&mut self.users, user_id, user_data);
    }

    /// Registers a new account: draws fresh credentials until the id is
    /// unused (up to a fixed number of draws), stores the hashed passcode,
    /// and returns the credentials with the clear passcode for the client
    /// to keep. Gives up only if every draw collided.
    pub fn register(&mut self) -> (r: Option<Credentials>)
        requires
            old(self).wf(),
        ensures
            final(self).wf(),
            final(self).auth_keys == old(self).auth_keys,
            final(self).unclaimed_auth_tokens == old(self).unclaimed_auth_tokens,
            match r {
                Some(c) => {
                    &&& c.id@.len() == 32
                    &&& c.passcode@.len() == 32
                    &&& !assoc_has(old(self).users@, c.id@)
                    &&& assoc_has(final(self).users@, c.id@)
                    &&& ({
                        let stored = assoc_get(final(self).users@, c.id@);
                        &&& stored.hashed_passcode@ == sha256_hex_of(c.passcode@)
                        &&& stored.tokens@.len() == 0
                        &&& stored.google_auth is None
                        &&& !stored.initial_scan_complete
                        &&& stored.next_token is None
                        &&& stored.prev_token is None
                    })
                    &&& forall|k: Seq<char>|
                        k != c.id@ ==> #[trigger] assoc_has(final(self).users@, k) == assoc_has(
                            old(self).users@,
                            k,
                        )
                },
                None => final(self).users == old(self).users,
            },
    {
        let mut draws: u64 = 0;
        while draws < REGISTER_DRAWS
            invariant
                *self == *old(self),
                old(self).wf(),
            decreases REGISTER_DRAWS - draws,
        {
            let (auth, insecure) = Credentials::new();
            let taken = {
                match assoc_find(&self.users, &auth.id) {
                    Some(_) => true,
                    None => false,
                }
            };
            if !taken {
                let user = UserData {
                    hashed_passcode: auth.passcode,
                    tokens: Vec::new(),
                    google_auth: None,
                    initial_scan_complete: false,
                    next_token: None,
                    prev_token: None,
                };
                let id_copy = auth.id.clone();
                assoc_upsert_exec(&mut self.users, auth.id, user);
                return Some(Credentials { id: id_copy, passcode: insecure });
            }
            draws = draws + 1;
        }
        None
    }

    /// Files a freshly issued login token under its token string, so the
    /// authentication flow can claim it later.
    pub fn issue_auth_key(&mut self, token: Token)
        requires
            old(self).wf(),
        ensures
            final(self).wf(),
            assoc_has(final(self).auth_keys@, token.token@),
            assoc_get(final(self).auth_keys@, token.token@) == token,
            forall|k: Seq<char>|
                k != token.token@ ==> #[trigger] assoc_has(final(self).auth_keys@, k) == assoc_has(
                    old(self).auth_keys@,
                    k,
                ),
            final(self).users == old(self).users,
            final(self).unclaimed_auth_tokens == old(self).unclaimed_auth_tokens,
    {
        let key = token.token.clone();
        assoc_upsert_exec(&mut self.auth_keys, key, token);
    }

    /// Whether a login token with this string is outstanding.
    pub fn auth_key_exists(&self, key: &str) -> (r: bool)
        ensures
            r == assoc_has(self.auth_keys@, key@),
    {
        let k = key.to_owned();
        match assoc_find(&self.auth_keys, &k) {
            Some(_) => true,
            None => false,
        }
    }

    /// Files an exchanged listing credential under its claim token, until
    /// the owning account claims it.
    pub fn add_unclaimed_token(&mut self, key: String, auth: GoogleAuth)
        requires
            old(self).wf(),
        ensures
            final(self).wf(),
            assoc_has(final(self).unclaimed_auth_tokens@, key@),
            assoc_get(final(self).unclaimed_auth_tokens@, key@) == auth,
            forall|k: Seq<char>|
                k != key@ ==> #[trigger] assoc_has(final(self).unclaimed_auth_tokens@, k)
                    == assoc_has(old(self).unclaimed_auth_tokens@, k),
            final(self).users == old(self).users,
            final(self).auth_keys == old(self).auth_keys,
    {
        assoc_upsert_exec(&mut self.unclaimed_auth_tokens, key, auth);
    }

    /// Claims an exchanged credential: the caller presents its login token
    /// (in `data.id`) and the claim token (in `data.token`); both are
    /// consumed, and the credential is attached to the account the login
    /// token was issued for.
    pub fn token_completion(&mut self, data: Token) -> (r: Result<(), CustomError>)
        requires
            old(self).wf(),
        ensures
            final(self).wf(),
            match r {
                Ok(()) => {
                    &&& assoc_has(old(self).auth_keys@, data.id@)
                    &&& assoc_has(old(self).unclaimed_auth_tokens@, data.token@)
                    &&& ({
                        let tok = assoc_get(old(self).auth_keys@, data.id@);
                        let g = assoc_get(old(self).unclaimed_auth_tokens@, data.token@);
                        &&& assoc_has(old(self).users@, tok.id@)
                        &&& assoc_has(final(self).users@, tok.id@)
                        &&& assoc_get(final(self).users@, tok.id@) == (UserData {
                            google_auth: Some(g),
                            ..assoc_get(old(self).users@, tok.id@)
                        })
                        &&& forall|k: Seq<char>|
                            k != tok.id@ ==> #[trigger] assoc_has(final(self).users@, k)
                                == assoc_has(old(self).users@, k)
                    })
                    &&& final(self).auth_keys@ == assoc_removed(old(self).auth_keys@, data.id@)
                    &&& final(self).unclaimed_auth_tokens@ == assoc_removed(
                        old(self).unclaimed_auth_tokens@,
                        data.token@,
                    )
                },
                Err(e) => {
                    &&& e.1 == 401
                    &&& final(self).users@ == old(self).users@
                    &&& !(assoc_has(old(self).auth_keys@, data.id@) && assoc_has(
                        old(self).unclaimed_auth_tokens@,
                        data.token@,
                    ) && assoc_has(
                        old(self).users@,
                        assoc_get(old(self).auth_keys@, data.id@).id@,
                    ))
                    &&& final(self).auth_keys@ == assoc_removed(old(self).auth_keys@, data.id@)
                    &&& (assoc_has(old(self).auth_keys@, data.id@)
                        ==> final(self).unclaimed_auth_tokens@ == assoc_removed(
                        old(self).unclaimed_auth_tokens@,
                        data.token@,
                    ))
                    &&& (!assoc_has(old(self).auth_keys@, data.id@)
                        ==> final(self).unclaimed_auth_tokens == old(self).unclaimed_auth_tokens)
                },
            },
    {
        let user_token = match assoc_remove_exec(&mut self.auth_keys, &data.id) {
            Some(t) => t,
            None => {
                return Err(CustomError::new("invalid token".to_owned(), 401));
            },
        };
        let unclaimed_login = match assoc_remove_exec(&mut self.unclaimed_auth_tokens, &data.token)
            {
            Some(g) => g,
            None => {
                return Err(CustomError::new("invalid token".to_owned(), 401));
            },
        };
        let stored = match assoc_remove_exec(&mut self.users, &user_token.id) {
            Some(u) => u,
            None => {
                return Err(CustomError::new("invalid login".to_owned(), 401));
            },
        };
        proof {
            crate::assoc::lemma_assoc_remove_wf(old(self).users@, user_token.id@);
        }
        let mut updated = stored;
        updated.google_auth = Some(unclaimed_login);
        assoc_upsert_exec(&mut self.users, user_token.id, updated);
        Ok(())
    }

    /// Deletes every trace of an account.
    pub fn delete_data(&mut self, user_id: &str) -> (r: Result<(), CustomError>)
        requires
            old(self).wf(),
        ensures
            final(self).wf(),
            final(self).users@ == assoc_removed(old(self).users@, user_id@),
            final(self).auth_keys == old(self).auth_keys,
            final(self).unclaimed_auth_tokens == old(self).unclaimed_auth_tokens,
            match r {
                Ok(()) => assoc_has(old(self).users@, user_id@),
                Err(e) => !assoc_has(old(self).users@, user_id@) && e.1 == 401,
            },
    {
        let key = user_id.to_owned();
        match assoc_remove_exec(&mut self.users, &key) {
            Some(_) => Ok(()),
            None => Err(CustomError::new("invalid user".to_owned(), 401)),
        }
    }

    /// Whether the account has finished the authentication flow: its
    /// listing credential has been claimed.
    pub fn login_ready(&self, user_id: &str) -> (r: Result<bool, CustomError>)
        requires
            self.wf(),
        ensures
            match r {
                Ok(ready) => assoc_has(self.users@, user_id@) && ready == (assoc_get(
                    self.users@,
                    user_id@,
                ).google_auth is Some),
                Err(e) => !assoc_has(self.users@, user_id@) && e.1 == 401,
            },
    {
        match self.get_user_by_username(user_id) {
            Some(u) => match &u.google_auth {
                Some(_) => Ok(true),
                None => Ok(false),
            },
            None => Err(CustomError::new("invalid login".to_owned(), 401)),
        }
    }

    /// Advances an account's pagination cursor past a completed page; the
    /// page's continuation token becomes current, and its absence marks
    /// the account's initial scan complete.
    pub fn advance_user_cursor(&mut self, user_id: &str, next: Option<String>) -> (r: Result<
        (),
        CustomError,
    >)
        requires
            old(self).wf(),
        ensures
            final(self).wf(),
            final(self).auth_keys == old(self).auth_keys,
            final(self).unclaimed_auth_tokens == old(self).unclaimed_auth_tokens,
            match r {
                Ok(()) => {
                    &&& assoc_has(old(self).users@, user_id@)
                    &&& assoc_has(final(self).users@, user_id@)
                    &&& assoc_get(final(self).users@, user_id@) == (UserData {
                        prev_token: assoc_get(old(self).users@, user_id@).next_token,
                        next_token: next,
                        initial_scan_complete: assoc_get(
                            old(self).users@,
                            user_id@,
                        ).initial_scan_complete || next is None,
                        ..assoc_get(old(self).users@, user_id@)
                    })
                    &&& forall|k: Seq<char>|
                        k != user_id@ ==> #[trigger] assoc_has(final(self).users@, k) == assoc_has(
                            old(self).users@,
                            k,
                        )
                },
                Err(e) => !assoc_has(old(self).users@, user_id@) && e.1 == 401
                    && final(self).users@ == old(self).users@,
            },
    {
        let key = user_id.to_owned();
        let stored = match assoc_remove_exec(&mut self.users, &key) {
            Some(u) => u,
            None => {
                return Err(CustomError::new("invalid user".to_owned(), 401));
            },
        };
        proof {
            crate::assoc::lemma_assoc_remove_wf(old(self).users@, key@);
        }
        let mut updated = stored;
        updated.advance_cursor(next);
        assoc_upsert_exec(&mut self.users, key, updated);
        Ok(())
    }
}

} // verus!
