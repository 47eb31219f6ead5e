use vstd::prelude::*;
use crate::auth::{expiry_error, fresh_session, mintable_at, rotated, AuthView};
use crate::error::StratError;
use crate::session::{
    after_rotation, after_storing, refresh_lookup, rotation, storing, token_lookup, validation,
};
use crate::store::{
    access_conflict, find_access, find_refresh, has_access, has_refresh, lemma_upserted_finds,
    lemma_upserted_retires, removed, store_wf, upserted,
};
use crate::time::{SESSION_LIFETIME_SECS, TOKEN_LIFETIME_SECS};
use crate::token::{is_token_of_len, ACCESS_TOKEN_LEN, REFRESH_TOKEN_LEN};

verus! {

/// A freshly created session is stored, its two tokens have 25 and 33
/// characters and differ, its access token validates to its owner at once,
/// and its refresh token is accepted at once.
pub proof fn lemma_created_session_is_live(
    s: Seq<AuthView>,
    owner: Seq<char>,
    token: Seq<char>,
    refresh: Seq<char>,
    now: int,
)
    requires
        store_wf(s),
        is_token_of_len(token, ACCESS_TOKEN_LEN as nat),
        is_token_of_len(refresh, REFRESH_TOKEN_LEN as nat),
        mintable_at(now),
        !access_conflict(s, fresh_session(owner, token, refresh, now)),
    ensures
        storing(s, fresh_session(owner, token, refresh, now)) == Ok::<AuthView, StratError>(
            fresh_session(owner, token, refresh, now),
        ),
        token.len() == 25 && refresh.len() == 33 && token != refresh,
        store_wf(after_storing(s, fresh_session(owner, token, refresh, now))),
        validation(after_storing(s, fresh_session(owner, token, refresh, now)), token, now)
            == Ok::<Seq<char>, StratError>(owner),
        refresh_lookup(after_storing(s, fresh_session(owner, token, refresh, now)), refresh, now)
            == Ok::<AuthView, StratError>(fresh_session(owner, token, refresh, now)),
{
    let a = fresh_session(owner, token, refresh, now);
    lemma_upserted_finds(s, a);
    assert(expiry_error(a, now) is None);
}

/// Validation reads the store without changing it, so two validations of
/// one token at times when it is live name the same owner.
pub proof fn lemma_validation_repeatable(s: Seq<AuthView>, t: Seq<char>, first: int, second: int)
    requires
        validation(s, t, first) is Ok,
        validation(s, t, second) is Ok,
    ensures
        validation(s, t, first) == validation(s, t, second),
{
}

/// A successful refresh hands out the new access token, keeps the refresh
/// token, owner and creation time, moves the expiry forward to a week after
/// `now`, and retires the old access token.
pub proof fn lemma_rotation_moves_forward(s: Seq<AuthView>, t: Seq<char>, token: Seq<char>, now: int)
    requires
        store_wf(s),
        rotation(s, t, token, now) is Ok,
        find_refresh(s, t) matches Some(a) && a.token != token && a.expiry <= now + TOKEN_LIFETIME_SECS,
    ensures
        find_refresh(s, t) matches Some(a) && rotation(s, t, token, now) matches Ok(b) && {
            &&& b.token == token && b.token != a.token
            &&& b.refresh == a.refresh && b.refresh == t
            &&& b.owner == a.owner && b.created == a.created
            &&& b.expiry == now + TOKEN_LIFETIME_SECS && b.expiry >= a.expiry
            &&& store_wf(after_rotation(s, t, token, now))
            &&& find_refresh(after_rotation(s, t, token, now), t) == Some(b)
            &&& token_lookup(after_rotation(s, t, token, now), a.token, now)
                == Err::<AuthView, StratError>(StratError::UnknownToken)
        },
{
    let a = find_refresh(s, t)->Some_0;
    let b = rotated(a, token, now);
    assert(a.refresh == t);
    lemma_upserted_finds(s, b);
    lemma_upserted_retires(s, b, a.token);
}

/// A session past its expiry is refused with `TokenExpired`; one within its
/// expiry but more than fifty days old is refused with `AuthExpired`, by
/// validation and by refresh alike. A refresh refused for the short expiry
/// changes nothing; one refused for the absolute lifetime deletes the session.
pub proof fn lemma_expired_sessions_refused(s: Seq<AuthView>, a: AuthView, token: Seq<char>, now: int)
    requires
        store_wf(s),
        find_refresh(s, a.refresh) == Some(a),
        a.expiry < now || a.created + SESSION_LIFETIME_SECS < now,
    ensures
        a.expiry < now ==> validation(s, a.token, now) == Err::<Seq<char>, StratError>(StratError::TokenExpired),
        a.expiry < now ==> rotation(s, a.refresh, token, now) == Err::<AuthView, StratError>(StratError::TokenExpired),
        now <= a.expiry ==> validation(s, a.token, now) == Err::<Seq<char>, StratError>(StratError::AuthExpired),
        now <= a.expiry ==> rotation(s, a.refresh, token, now) == Err::<AuthView, StratError>(StratError::AuthExpired),
        a.expiry < now ==> after_rotation(s, a.refresh, token, now) == s,
        now <= a.expiry ==> after_rotation(s, a.refresh, token, now) == removed(s, a.refresh),
        now <= a.expiry ==> !has_refresh(after_rotation(s, a.refresh, token, now), a.refresh),
{
    let i = choose|i: int| 0 <= i < s.len() && (#[trigger] s[i]).refresh == a.refresh;
    crate::store::lemma_found_at(s, i);
}

/// A token that no session holds is refused with `UnknownToken`; a refresh
/// token that no session holds is refused with `UnknownRefresh` and changes
/// nothing.
pub proof fn lemma_unknown_tokens_refused(s: Seq<AuthView>, t: Seq<char>, r: Seq<char>, token: Seq<char>, now: int)
    requires
        !has_access(s, t),
        !has_refresh(s, r),
    ensures
        validation(s, t, now) == Err::<Seq<char>, StratError>(StratError::UnknownToken),
        rotation(s, r, token, now) == Err::<AuthView, StratError>(StratError::UnknownRefresh),
        after_rotation(s, r, token, now) == s,
{
}

/// Two refreshes of one session that both succeed leave one session for the
/// refresh token, paired with the access token and expiry of the later one;
/// the earlier access token no longer validates.
pub proof fn lemma_last_rotation_wins(
    s: Seq<AuthView>,
    t: Seq<char>,
    first: Seq<char>,
    first_now: int,
    second: Seq<char>,
    second_now: int,
)
    requires
        store_wf(s),
        rotation(s, t, first, first_now) is Ok,
        rotation(after_rotation(s, t, first, first_now), t, second, second_now) is Ok,
        first != second,
    ensures
        ({
            let s2 = after_rotation(after_rotation(s, t, first, first_now), t, second, second_now);
            &&& store_wf(s2)
            &&& s2.len() == s.len()
            &&& find_refresh(s2, t) matches Some(b) && b.token == second
                && b.expiry == second_now + TOKEN_LIFETIME_SECS
            &&& find_access(s2, second) == find_refresh(s2, t)
            &&& !has_access(s2, first)
        }),
{
    let a = find_refresh(s, t)->Some_0;
    let b1 = rotated(a, first, first_now);
    lemma_upserted_finds(s, b1);
    let s1 = upserted(s, b1);
    let b2 = rotated(b1, second, second_now);
    assert(find_refresh(s1, t) == Some(b1));
    lemma_upserted_finds(s1, b2);
    lemma_upserted_retires(s1, b2, first);
}

} // verus!
