use vstd::prelude::*;
use crate::auth::{expiry_error, mintable_at, rotated, Auth, AuthView};
use crate::error::StratError;
use crate::store::{access_conflict, find_access, find_refresh, removed, upserted, SessionStore};
use crate::time::{clock_time, current_time};
use crate::token::{gen_random, is_token_of_len, ACCESS_TOKEN_LEN};

verus! {

/// The view of a session lookup's outcome.
pub open spec fn result_view(r: Result<Auth, StratError>) -> Result<AuthView, StratError> {
    match r {
        Ok(a) => Ok(a@),
        Err(e) => Err(e),
    }
}

/// `found` checked against the expiry policy at `now`; `missing` when there
/// is no session.
pub open spec fn checked_session(
    found: Option<AuthView>,
    missing: StratError,
    now: int,
) -> Result<AuthView, StratError> {
    match found {
        None => Err(missing),
        Some(a) => match expiry_error(a, now) {
            Some(e) => Err(e),
            None => Ok(a),
        },
    }
}

/// Presenting access token `t` at `now` to the store `s`.
pub open spec fn token_lookup(s: Seq<AuthView>, t: Seq<char>, now: int) -> Result<AuthView, StratError> {
    checked_session(find_access(s, t), StratError::UnknownToken, now)
}

/// Presenting refresh token `t` at `now` to the store `s`.
pub open spec fn refresh_lookup(s: Seq<AuthView>, t: Seq<char>, now: int) -> Result<AuthView, StratError> {
    checked_session(find_refresh(s, t), StratError::UnknownRefresh, now)
}

/// Validating access token `t` at `now` against `s`: the owner of the live
/// session that holds it.
pub open spec fn validation(s: Seq<AuthView>, t: Seq<char>, now: int) -> Result<Seq<char>, StratError> {
    match token_lookup(s, t, now) {
        Ok(a) => Ok(a.owner),
        Err(e) => Err(e),
    }
}

/// The outcome of storing `a` in `s`.
pub open spec fn storing(s: Seq<AuthView>, a: AuthView) -> Result<AuthView, StratError> {
    if access_conflict(s, a) {
        Err(StratError::UniqueExists)
    } else {
        Ok(a)
    }
}

/// `s` after storing `a`; unchanged when that fails.
pub open spec fn after_storing(s: Seq<AuthView>, a: AuthView) -> Seq<AuthView> {
    if access_conflict(s, a) {
        s
    } else {
        upserted(s, a)
    }
}

/// The session that refresh token `t` yields at `now` with the new access
/// token `token`: the live session is rotated, unless another session
/// already holds `token`.
pub open spec fn rotation(
    s: Seq<AuthView>,
    t: Seq<char>,
    token: Seq<char>,
    now: int,
) -> Result<AuthView, StratError> {
    match refresh_lookup(s, t, now) {
        Err(e) => Err(e),
        Ok(a) => storing(s, rotated(a, token, now)),
    }
}

/// The store after that rotation: the rotated session is written back; a
/// session found past its absolute lifetime is deleted; any other failure
/// changes nothing.
pub open spec fn after_rotation(
    s: Seq<AuthView>,
    t: Seq<char>,
    token: Seq<char>,
    now: int,
) -> Seq<AuthView> {
    match refresh_lookup(s, t, now) {
        Err(StratError::AuthExpired) => removed(s, t),
        Err(_) => s,
        Ok(a) => after_storing(s, rotated(a, token, now)),
    }
}

/// Looks `refresh` up, checks the session at `now`, and writes it back with
/// the access token `token` and a new expiry. A session past its absolute
/// lifetime can never be used again, so it is deleted.
pub fn rotate_session(store: &mut SessionStore, refresh: &String, token: String, now: i64) -> (r: Result<Auth, StratError>)
    requires
        old(store).wf(),
        mintable_at(now as int),
    ensures
        final(store).wf(),
        result_view(r) == rotation(old(store)@, refresh@, token@, now as int),
        final(store)@ == after_rotation(old(store)@, refresh@, token@, now as int),
{
    let current = match store.find_by_refresh_token(refresh) {
        Some(a) => a,
        None => return Err(StratError::UnknownRefresh),
    };
    match current.expired_at(now) {
        Some(StratError::AuthExpired) => {
            store.delete_by_refresh_token(refresh);
            return Err(StratError::AuthExpired);
        },
        Some(e) => return Err(e),
        None => {},
    }
    let next = current.rotate(token, now);
    match store.upsert(next.duplicate()) {
        Ok(()) => Ok(next),
        Err(e) => Err(e),
    }
}

impl Auth {
    /// The live session whose access token is `id`, at `now`.
    pub fn get_by_token_at(store: &SessionStore, id: &String, now: i64) -> (r: Result<Auth, StratError>)
        requires
            store.wf(),
        ensures
            result_view(r) == token_lookup(store@, id@, now as int),
    {
        match store.find_by_access_token(id) {
            Some(a) => match a.expired_at(now) {
                Some(e) => Err(e),
                None => Ok(a),
            },
            None => Err(StratError::UnknownToken),
        }
    }

    /// The live session whose access token is `id`.
    pub fn get_by_token(store: &SessionStore, id: String) -> (r: Result<Auth, StratError>)
        requires
            store.wf(),
        ensures
            exists|now: int| clock_time(now) && result_view(r) == token_lookup(store@, id@, now),
    {
        let now = current_time();
        Self::get_by_token_at(store, &id, now)
    }

    /// The live session whose refresh token is `id`, at `now`.
    pub fn get_by_refresh_at(store: &SessionStore, id: &String, now: i64) -> (r: Result<Auth, StratError>)
        requires
            store.wf(),
        ensures
            result_view(r) == refresh_lookup(store@, id@, now as int),
    {
        match store.find_by_refresh_token(id) {
            Some(a) => match a.expired_at(now) {
                Some(e) => Err(e),
                None => Ok(a),
            },
            None => Err(StratError::UnknownRefresh),
        }
    }

    /// The live session whose refresh token is `id`.
    pub fn get_by_refresh(store: &SessionStore, id: String) -> (r: Result<Auth, StratError>)
        requires
            store.wf(),
        ensures
            exists|now: int| clock_time(now) && result_view(r) == refresh_lookup(store@, id@, now),
    {
        let now = current_time();
        Self::get_by_refresh_at(store, &id, now)
    }

    /// Writes this session to `store`; `UniqueExists` when another session
    /// holds its access token, in which case the store is unchanged.
    pub fn save_auth(&self, store: &mut SessionStore) -> (r: Option<StratError>)
        requires
            old(store).wf(),
        ensures
            final(store).wf(),
            r is None <==> !access_conflict(old(store)@, self@),
            r is None ==> final(store)@ == upserted(old(store)@, self@),
            r is Some ==> r == Some(StratError::UniqueExists) && final(store)@ == old(store)@,
    {
        match store.upsert(self.duplicate()) {
            Ok(()) => None,
            Err(e) => Some(e),
        }
    }

    /// Rotates this session's access token to `token` at `now`: the stored
    /// session with this refresh token must be live; it gets the new token
    /// and an expiry a week after `now`, and is returned.
    pub fn refresh_at(&self, store: &mut SessionStore, token: String, now: i64) -> (r: Result<Auth, StratError>)
        requires
            old(store).wf(),
            mintable_at(now as int),
        ensures
            final(store).wf(),
            result_view(r) == rotation(old(store)@, self@.refresh, token@, now as int),
            final(store)@ == after_rotation(old(store)@, self@.refresh, token@, now as int),
    {
        rotate_session(store, self.refresh_ref(), token, now)
    }

    /// Rotates this session's access token to a fresh random one, now.
    pub fn refresh(&self, store: &mut SessionStore) -> (r: Result<Auth, StratError>)
        requires
            old(store).wf(),
        ensures
            final(store).wf(),
            exists|token: Seq<char>, now: int| {
                &&& is_token_of_len(token, ACCESS_TOKEN_LEN as nat)
                &&& clock_time(now)
                &&& result_view(r) == rotation(old(store)@, self@.refresh, token, now)
                &&& final(store)@ == after_rotation(old(store)@, self@.refresh, token, now)
            },
    {
        let token = gen_random(ACCESS_TOKEN_LEN);
        let now = current_time();
        self.refresh_at(store, token, now)
    }
}

/// An access token as presented by a client.
pub struct AuthToken {
    token: String,
}

impl View for AuthToken {
    type V = Seq<char>;

    closed spec fn view(&self) -> Seq<char> {
        self.token@
    }
}

impl AuthToken {
    pub fn new(token: String) -> (r: Self)
        ensures
            r@ == token@,
    {
        Self { token }
    }

    /// Whether the token belongs to a live session now.
    pub fn is_valid(&self, store: &SessionStore) -> (r: bool)
        requires
            store.wf(),
        ensures
            exists|now: int| clock_time(now) && r == token_lookup(store@, self@, now) is Ok,
    {
        self.to_auth(store).is_ok()
    }

    /// The live session the token belongs to.
    pub fn to_auth(&self, store: &SessionStore) -> (r: Result<Auth, StratError>)
        requires
            store.wf(),
        ensures
            exists|now: int| clock_time(now) && result_view(r) == token_lookup(store@, self@, now),
    {
        Auth::get_by_token(store, self.token.clone())
    }
}

/// A refresh token as presented by a client.
pub struct AuthRefresh {
    refresh: String,
}

impl View for AuthRefresh {
    type V = Seq<char>;

    closed spec fn view(&self) -> Seq<char> {
        self.refresh@
    }
}

impl AuthRefresh {
    pub fn new(refresh: String) -> (r: Self)
        ensures
            r@ == refresh@,
    {
        Self { refresh }
    }

    /// Whether the refresh token belongs to a live session now.
    pub fn is_valid(&self, store: &SessionStore) -> (r: bool)
        requires
            store.wf(),
        ensures
            exists|now: int| clock_time(now) && r == refresh_lookup(store@, self@, now) is Ok,
    {
        self.to_auth(store).is_ok()
    }

    /// The live session the refresh token belongs to.
    pub fn to_auth(&self, store: &SessionStore) -> (r: Result<Auth, StratError>)
        requires
            store.wf(),
        ensures
            exists|now: int| clock_time(now) && result_view(r) == refresh_lookup(store@, self@, now),
    {
        Auth::get_by_refresh(store, self.refresh.clone())
    }
}

} // verus!
