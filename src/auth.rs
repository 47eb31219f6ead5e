use vstd::prelude::*;
use crate::error::StratError;
use crate::time::{clock_time, current_time, SESSION_LIFETIME_SECS, TOKEN_LIFETIME_SECS};
use crate::token::{gen_random, is_token_of_len, ACCESS_TOKEN_LEN, REFRESH_TOKEN_LEN};

verus! {

/// One stored session: a short-lived access token paired with a long-lived
/// refresh token, the user it belongs to, and its two time limits in
/// seconds since 1970.
pub struct Auth {
    token: String,
    refresh: String,
    owner: String,
    expiry: i64,
    created: i64,
}

/// The mathematical content of an [`Auth`].
pub struct AuthView {
    pub token: Seq<char>,
    pub refresh: Seq<char>,
    pub owner: Seq<char>,
    pub expiry: int,
    pub created: int,
}

impl View for Auth {
    type V = AuthView;

    closed spec fn view(&self) -> AuthView {
        AuthView {
            token: self.token@,
            refresh: self.refresh@,
            owner: self.owner@,
            expiry: self.expiry as int,
            created: self.created as int,
        }
    }
}

/// The session minted at `now` for `owner` with the given tokens.
pub open spec fn fresh_session(
    owner: Seq<char>,
    token: Seq<char>,
    refresh: Seq<char>,
    now: int,
) -> AuthView {
    AuthView { token, refresh, owner, expiry: now + TOKEN_LIFETIME_SECS, created: now }
}

/// `a` with its access token replaced and its short lifetime restarted at `now`.
pub open spec fn rotated(a: AuthView, token: Seq<char>, now: int) -> AuthView {
    AuthView { token, expiry: now + TOKEN_LIFETIME_SECS, ..a }
}

/// Why the session `a` is no longer usable at `now`, if it is not.
pub open spec fn expiry_error(a: AuthView, now: int) -> Option<StratError> {
    if a.expiry < now {
        Some(StratError::TokenExpired)
    } else if a.created + SESSION_LIFETIME_SECS < now {
        Some(StratError::AuthExpired)
    } else {
        None
    }
}

/// Times at which a new expiry `now + TOKEN_LIFETIME_SECS` fits in an `i64`.
pub open spec fn mintable_at(now: int) -> bool {
    now <= i64::MAX - TOKEN_LIFETIME_SECS
}

impl Auth {
    /// A session from its stored fields.
    pub fn from_parts(token: String, refresh: String, owner: String, expiry: i64, created: i64) -> (r: Self)
        ensures
            r@ == (AuthView {
                token: token@,
                refresh: refresh@,
                owner: owner@,
                expiry: expiry as int,
                created: created as int,
            }),
    {
        Auth { token, refresh, owner, expiry, created }
    }

    /// The session created at `now` for `owner` with the given tokens.
    pub fn with_tokens(owner: String, token: String, refresh: String, now: i64) -> (r: Self)
        requires
            mintable_at(now as int),
        ensures
            r@ == fresh_session(owner@, token@, refresh@, now as int),
    {
        Auth { token, refresh, owner: owner, expiry: now + TOKEN_LIFETIME_SECS, created: now }
    }

    /// A new session for `user`, created now, with fresh random tokens.
    pub fn new(user: String) -> (r: Self)
        ensures
            r@.owner == user@,
            is_token_of_len(r@.token, ACCESS_TOKEN_LEN as nat),
            is_token_of_len(r@.refresh, REFRESH_TOKEN_LEN as nat),
            clock_time(r@.created),
            r@ == fresh_session(user@, r@.token, r@.refresh, r@.created),
    {
        let token = gen_random(ACCESS_TOKEN_LEN);
        let refresh = gen_random(REFRESH_TOKEN_LEN);
        let now = current_time();
        Self::with_tokens(user, token, refresh, now)
    }

    /// A copy of this session.
    pub fn duplicate(&self) -> (r: Self)
        ensures
            r@ == self@,
    {
        Auth {
            token: self.token.clone(),
            refresh: self.refresh.clone(),
            owner: self.owner.clone(),
            expiry: self.expiry,
            created: self.created,
        }
    }

    /// This session with `token` as its access token and an expiry restarted at `now`.
    pub fn rotate(&self, token: String, now: i64) -> (r: Self)
        requires
            mintable_at(now as int),
        ensures
            r@ == rotated(self@, token@, now as int),
    {
        Auth {
            token,
            refresh: self.refresh.clone(),
            owner: self.owner.clone(),
            expiry: now + TOKEN_LIFETIME_SECS,
            created: self.created,
        }
    }

    pub fn get_token(&self) -> (r: String)
        ensures
            r@ == self@.token,
    {
        self.token.clone()
    }

    pub fn get_refresh(&self) -> (r: String)
        ensures
            r@ == self@.refresh,
    {
        self.refresh.clone()
    }

    pub fn get_owner(&self) -> (r: String)
        ensures
            r@ == self@.owner,
    {
        self.owner.clone()
    }

    pub fn get_expiry(&self) -> (r: i64)
        ensures
            r as int == self@.expiry,
    {
        self.expiry
    }

    pub fn get_created(&self) -> (r: i64)
        ensures
            r as int == self@.created,
    {
        self.created
    }

    pub(crate) fn token_ref(&self) -> (r: &String)
        ensures
            r@ == self@.token,
    {
        &self.token
    }

    pub(crate) fn refresh_ref(&self) -> (r: &String)
        ensures
            r@ == self@.refresh,
    {
        &self.refresh
    }

    /// Why this session is unusable at `now`: `TokenExpired` once `now` is past
    /// its expiry, else `AuthExpired` once `now` is more than fifty days past
    /// its creation; `None` while it is live.
    pub fn expired_at(&self, now: i64) -> (r: Option<StratError>)
        ensures
            r == expiry_error(self@, now as int),
    {
        if self.expiry < now {
            Some(StratError::TokenExpired)
        } else if (self.created as i128) + (SESSION_LIFETIME_SECS as i128) < (now as i128) {
            Some(StratError::AuthExpired)
        } else {
            None
        }
    }

    /// Why this session is unusable now, if it is.
    pub fn has_expired(&self) -> (r: Option<StratError>)
        ensures
            exists|now: int| clock_time(now) && r == expiry_error(self@, now),
    {
        let now = current_time();
        self.expired_at(now)
    }
}

} // verus!
