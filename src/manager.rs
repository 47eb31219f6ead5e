use vstd::prelude::*;
use crate::auth::{fresh_session, mintable_at, Auth, AuthView};
use crate::error::StratError;
use crate::session::{after_rotation, after_storing, result_view, rotate_session, rotation, storing, validation};
use crate::store::{has_refresh, removed, store_wf, SessionStore};
use crate::time::{clock_time, current_time};
use crate::token::{gen_random, is_token_of_len, ACCESS_TOKEN_LEN, REFRESH_TOKEN_LEN};

verus! {

/// The view of a validation's outcome.
pub open spec fn owner_view(r: Result<String, StratError>) -> Result<Seq<char>, StratError> {
    match r {
        Ok(o) => Ok(o@),
        Err(e) => Err(e),
    }
}

/// Issues, validates and rotates sessions over the store it was given.
pub struct SessionManager {
    store: SessionStore,
}

impl View for SessionManager {
    type V = Seq<AuthView>;

    closed spec fn view(&self) -> Seq<AuthView> {
        self.store@
    }
}

impl SessionManager {
    /// The manager keeps its store's tokens unique.
    pub open spec fn wf(&self) -> bool {
        store_wf(self@)
    }

    /// A manager over `store`.
    pub fn new(store: SessionStore) -> (r: Self)
        requires
            store.wf(),
        ensures
            r@ == store@,
            r.wf(),
    {
        SessionManager { store }
    }

    /// The store the manager works on.
    pub fn store(&self) -> (r: &SessionStore)
        ensures
            r@ == self@,
    {
        &self.store
    }

    /// Mints a session for `owner` at `now` with the given tokens and stores it.
    pub fn create_session_at(&mut self, owner: String, token: String, refresh: String, now: i64) -> (r: Result<Auth, StratError>)
        requires
            old(self).wf(),
            mintable_at(now as int),
        ensures
            final(self).wf(),
            result_view(r) == storing(old(self)@, fresh_session(owner@, token@, refresh@, now as int)),
            final(self)@ == after_storing(old(self)@, fresh_session(owner@, token@, refresh@, now as int)),
    {
        let a = Auth::with_tokens(owner, token, refresh, now);
        match a.save_auth(&mut self.store) {
            None => Ok(a),
            Some(e) => Err(e),
        }
    }

    /// Mints a session for `owner` now, with a random 25-character access
    /// token and a random 33-character refresh token, and stores it.
    pub fn create_session(&mut self, owner: String) -> (r: Result<Auth, StratError>)
        requires
            old(self).wf(),
        ensures
            final(self).wf(),
            exists|token: Seq<char>, refresh: Seq<char>, now: int| {
                &&& is_token_of_len(token, ACCESS_TOKEN_LEN as nat)
                &&& is_token_of_len(refresh, REFRESH_TOKEN_LEN as nat)
                &&& clock_time(now)
                &&& result_view(r) == storing(old(self)@, fresh_session(owner@, token, refresh, now))
                &&& final(self)@ == after_storing(old(self)@, fresh_session(owner@, token, refresh, now))
            },
    {
        let token = gen_random(ACCESS_TOKEN_LEN);
        let refresh = gen_random(REFRESH_TOKEN_LEN);
        let now = current_time();
        self.create_session_at(owner, token, refresh, now)
    }

    /// The owner of the live session holding access token `token` at `now`.
    pub fn validate_access_token_at(&self, token: &String, now: i64) -> (r: Result<String, StratError>)
        requires
            self.wf(),
        ensures
            owner_view(r) == validation(self@, token@, now as int),
    {
        match Auth::get_by_token_at(&self.store, token, now) {
            Ok(a) => Ok(a.get_owner()),
            Err(e) => Err(e),
        }
    }

    /// The owner of the live session holding access token `token`, now.
    pub fn validate_access_token(&self, token: &String) -> (r: Result<String, StratError>)
        requires
            self.wf(),
        ensures
            exists|now: int| clock_time(now) && owner_view(r) == validation(self@, token@, now),
    {
        let now = current_time();
        self.validate_access_token_at(token, now)
    }

    /// Rotates the session of `refresh` at `now` to the access token `token`.
    pub fn refresh_session_at(&mut self, refresh: &String, token: String, now: i64) -> (r: Result<Auth, StratError>)
        requires
            old(self).wf(),
            mintable_at(now as int),
        ensures
            final(self).wf(),
            result_view(r) == rotation(old(self)@, refresh@, token@, now as int),
            final(self)@ == after_rotation(old(self)@, refresh@, token@, now as int),
    {
        rotate_session(&mut self.store, refresh, token, now)
    }

    /// Rotates the session of `refresh` now to a fresh random access token.
    pub fn refresh_session(&mut self, refresh: &String) -> (r: Result<Auth, StratError>)
        requires
            old(self).wf(),
        ensures
            final(self).wf(),
            exists|token: Seq<char>, now: int| {
                &&& is_token_of_len(token, ACCESS_TOKEN_LEN as nat)
                &&& clock_time(now)
                &&& result_view(r) == rotation(old(self)@, refresh@, token, now)
                &&& final(self)@ == after_rotation(old(self)@, refresh@, token, now)
            },
    {
        let token = gen_random(ACCESS_TOKEN_LEN);
        let now = current_time();
        self.refresh_session_at(refresh, token, now)
    }

    /// Ends the session of `refresh`, so that neither of its tokens is
    /// accepted again; `true` when there was one.
    pub fn revoke_session(&mut self, refresh: &String) -> (r: bool)
        requires
            old(self).wf(),
        ensures
            final(self).wf(),
            r == has_refresh(old(self)@, refresh@),
            final(self)@ == removed(old(self)@, refresh@),
    {
        self.store.delete_by_refresh_token(refresh)
    }
}

} // verus!
