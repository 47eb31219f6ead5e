use vstd::prelude::*;
use crate::auth::{Auth, AuthView};
use crate::error::StratError;

verus! {

/// No two sessions share a refresh token, and no two share an access token.
pub open spec fn store_wf(s: Seq<AuthView>) -> bool {
    forall|i: int, j: int|
        0 <= i < s.len() && 0 <= j < s.len() && i != j ==> {
            &&& (#[trigger] s[i]).refresh != (#[trigger] s[j]).refresh
            &&& s[i].token != s[j].token
        }
}

/// Some session of `s` has access token `t`.
pub open spec fn has_access(s: Seq<AuthView>, t: Seq<char>) -> bool {
    exists|i: int| 0 <= i < s.len() && (#[trigger] s[i]).token == t
}

/// Some session of `s` has refresh token `t`.
pub open spec fn has_refresh(s: Seq<AuthView>, t: Seq<char>) -> bool {
    exists|i: int| 0 <= i < s.len() && (#[trigger] s[i]).refresh == t
}

/// The position of the session with refresh token `t`, where there is one.
pub open spec fn refresh_index(s: Seq<AuthView>, t: Seq<char>) -> int {
    choose|i: int| 0 <= i < s.len() && (#[trigger] s[i]).refresh == t
}

/// The session with access token `t`.
pub open spec fn find_access(s: Seq<AuthView>, t: Seq<char>) -> Option<AuthView> {
    if has_access(s, t) {
        Some(s[choose|i: int| 0 <= i < s.len() && (#[trigger] s[i]).token == t])
    } else {
        None
    }
}

/// The session with refresh token `t`.
pub open spec fn find_refresh(s: Seq<AuthView>, t: Seq<char>) -> Option<AuthView> {
    if has_refresh(s, t) {
        Some(s[refresh_index(s, t)])
    } else {
        None
    }
}

/// Storing `a` would give its access token to a second session.
pub open spec fn access_conflict(s: Seq<AuthView>, a: AuthView) -> bool {
    exists|i: int| 0 <= i < s.len() && (#[trigger] s[i]).token == a.token && s[i].refresh != a.refresh
}

/// `s` after storing `a`: the session with `a`'s refresh token is replaced,
/// or `a` is added when there is none.
pub open spec fn upserted(s: Seq<AuthView>, a: AuthView) -> Seq<AuthView> {
    if has_refresh(s, a.refresh) {
        s.update(refresh_index(s, a.refresh), a)
    } else {
        s.push(a)
    }
}

/// `s` without the session whose refresh token is `t`.
pub open spec fn removed(s: Seq<AuthView>, t: Seq<char>) -> Seq<AuthView> {
    if has_refresh(s, t) {
        s.remove(refresh_index(s, t))
    } else {
        s
    }
}

/// The view of an optional session.
pub open spec fn option_view(o: Option<Auth>) -> Option<AuthView> {
    match o {
        Some(a) => Some(a@),
        None => None,
    }
}

/// In a well-formed store the session at `i` is the one found by its tokens.
pub proof fn lemma_found_at(s: Seq<AuthView>, i: int)
    requires
        store_wf(s),
        0 <= i < s.len(),
    ensures
        has_refresh(s, s[i].refresh),
        refresh_index(s, s[i].refresh) == i,
        find_refresh(s, s[i].refresh) == Some(s[i]),
        has_access(s, s[i].token),
        find_access(s, s[i].token) == Some(s[i]),
{
    let t = s[i].token;
    assert(has_access(s, t));
    let j = choose|j: int| 0 <= j < s.len() && (#[trigger] s[j]).token == t;
    assert(j == i);
    assert(has_refresh(s, s[i].refresh));
}

/// Storing a session that takes no other session's access token keeps the
/// store well formed.
pub proof fn lemma_upserted_wf(s: Seq<AuthView>, a: AuthView)
    requires
        store_wf(s),
        !access_conflict(s, a),
    ensures
        store_wf(upserted(s, a)),
{
    let u = upserted(s, a);
    if has_refresh(s, a.refresh) {
        let k = refresh_index(s, a.refresh);
        assert forall|i: int, j: int|
            0 <= i < u.len() && 0 <= j < u.len() && i != j implies
            (#[trigger] u[i]).refresh != (#[trigger] u[j]).refresh && u[i].token != u[j].token by {
            if i == k {
                assert(s[j].refresh != s[k].refresh);
                assert(!(s[j].token == a.token && s[j].refresh != a.refresh));
            } else if j == k {
                assert(s[i].refresh != s[k].refresh);
                assert(!(s[i].token == a.token && s[i].refresh != a.refresh));
            }
        }
    } else {
        assert forall|i: int, j: int|
            0 <= i < u.len() && 0 <= j < u.len() && i != j implies
            (#[trigger] u[i]).refresh != (#[trigger] u[j]).refresh && u[i].token != u[j].token by {
            if i == s.len() {
                assert(!(s[j].token == a.token && s[j].refresh != a.refresh));
                assert(s[j].refresh != a.refresh);
            } else if j == s.len() {
                assert(!(s[i].token == a.token && s[i].refresh != a.refresh));
                assert(s[i].refresh != a.refresh);
            }
        }
    }
}

/// Removing a session keeps the store well formed.
pub proof fn lemma_removed_wf(s: Seq<AuthView>, t: Seq<char>)
    requires
        store_wf(s),
    ensures
        store_wf(removed(s, t)),
{
    if has_refresh(s, t) {
        let k = refresh_index(s, t);
        let u = removed(s, t);
        assert forall|i: int, j: int|
            0 <= i < u.len() && 0 <= j < u.len() && i != j implies
            (#[trigger] u[i]).refresh != (#[trigger] u[j]).refresh && u[i].token != u[j].token by {
            let i0 = if i < k { i } else { i + 1 };
            let j0 = if j < k { j } else { j + 1 };
            assert(u[i] == s[i0]);
            assert(u[j] == s[j0]);
        }
    }
}

/// After storing `a` without conflict, both of its tokens find it.
pub proof fn lemma_upserted_finds(s: Seq<AuthView>, a: AuthView)
    requires
        store_wf(s),
        !access_conflict(s, a),
    ensures
        store_wf(upserted(s, a)),
        find_refresh(upserted(s, a), a.refresh) == Some(a),
        find_access(upserted(s, a), a.token) == Some(a),
        has_refresh(s, a.refresh) ==> upserted(s, a).len() == s.len(),
{
    lemma_upserted_wf(s, a);
    let u = upserted(s, a);
    if has_refresh(s, a.refresh) {
        let k = refresh_index(s, a.refresh);
        assert(u[k] == a);
        lemma_found_at(u, k);
    } else {
        assert(u[s.len() as int] == a);
        lemma_found_at(u, s.len() as int);
    }
}

/// Overwriting the session at refresh token `a.refresh` with a new access
/// token retires the old one.
pub proof fn lemma_upserted_retires(s: Seq<AuthView>, a: AuthView, old_token: Seq<char>)
    requires
        store_wf(s),
        find_refresh(s, a.refresh) matches Some(prev) && prev.token == old_token,
        a.token != old_token,
    ensures
        !has_access(upserted(s, a), old_token),
{
    let k = refresh_index(s, a.refresh);
    let u = upserted(s, a);
    if has_access(u, old_token) {
        let i = choose|i: int| 0 <= i < u.len() && (#[trigger] u[i]).token == old_token;
        if i != k {
            assert(s[i].token == s[k].token);
        }
    }
}

/// The sessions of the service, at most one per refresh token and one per
/// access token.
pub struct SessionStore {
    records: Vec<Auth>,
}

impl View for SessionStore {
    type V = Seq<AuthView>;

    closed spec fn view(&self) -> Seq<AuthView> {
        self.records@.map_values(|a: Auth| a@)
    }
}

impl SessionStore {
    /// The store keeps its tokens unique; every operation here preserves it.
    pub open spec fn wf(&self) -> bool {
        store_wf(self@)
    }

    /// A store without sessions.
    pub fn new() -> (r: Self)
        ensures
            r@ == Seq::<AuthView>::empty(),
            r.wf(),
    {
        let r = SessionStore { records: Vec::new() };
        assert(r@ =~= Seq::<AuthView>::empty());
        r
    }

    /// The number of stored sessions.
    pub fn len(&self) -> (n: usize)
        ensures
            n == self@.len(),
    {
        self.records.len()
    }

    /// Position of the session with access token `t`.
    fn position_of_access(&self, t: &String) -> (r: Option<usize>)
        ensures
            match r {
                Some(i) => i < self@.len() && self@[i as int].token == t@,
                None => !has_access(self@, t@),
            },
    {
        let mut i: usize = 0;
        while i < self.records.len()
            invariant
                i <= self.records@.len(),
                self@.len() == self.records@.len(),
                forall|k: int| 0 <= k < i ==> (#[trigger] self@[k]).token != t@,
            decreases self.records@.len() - i,
        {
            assert(self@[i as int] == self.records@[i as int]@);
            if self.records[i].token_ref().eq(t) {
                return Some(i);
            }
            i = i + 1;
        }
        None
    }

    /// Position of the session with refresh token `t`.
    fn position_of_refresh(&self, t: &String) -> (r: Option<usize>)
        ensures
            match r {
                Some(i) => i < self@.len() && self@[i as int].refresh == t@,
                None => !has_refresh(self@, t@),
            },
    {
        let mut i: usize = 0;
        while i < self.records.len()
            invariant
                i <= self.records@.len(),
                self@.len() == self.records@.len(),
                forall|k: int| 0 <= k < i ==> (#[trigger] self@[k]).refresh != t@,
            decreases self.records@.len() - i,
        {
            assert(self@[i as int] == self.records@[i as int]@);
            if self.records[i].refresh_ref().eq(t) {
                return Some(i);
            }
            i = i + 1;
        }
        None
    }

    /// The session whose access token is `token`.
    pub fn find_by_access_token(&self, token: &String) -> (r: Option<Auth>)
        requires
            self.wf(),
        ensures
            option_view(r) == find_access(self@, token@),
    {
        match self.position_of_access(token) {
            Some(i) => {
                proof {
                    lemma_found_at(self@, i as int);
                }
                assert(self@[i as int] == self.records@[i as int]@);
                Some(self.records[i].duplicate())
            },
            None => None,
        }
    }

    /// The session whose refresh token is `token`.
    pub fn find_by_refresh_token(&self, token: &String) -> (r: Option<Auth>)
        requires
            self.wf(),
        ensures
            option_view(r) == find_refresh(self@, token@),
    {
        match self.position_of_refresh(token) {
            Some(i) => {
                proof {
                    lemma_found_at(self@, i as int);
                }
                assert(self@[i as int] == self.records@[i as int]@);
                Some(self.records[i].duplicate())
            },
            None => None,
        }
    }
    /// Stores `rec`. Fails with `UniqueExists`, leaving the store as it was,
    /// when another session already holds `rec`'s access token. Otherwise the
    /// session with `rec`'s refresh token is overwritten, or `rec` is added.
    pub fn upsert(&mut self, rec: Auth) -> (r: Result<(), StratError>)
        requires
            old(self).wf(),
        ensures
            final(self).wf(),
            r is Err <==> access_conflict(old(self)@, rec@),
            r is Err ==> r == Err::<(), StratError>(StratError::UniqueExists) && final(self)@ == old(self)@,
            r is Ok ==> final(self)@ == upserted(old(self)@, rec@),
    {
        let ghost s = self@;
        match self.position_of_access(rec.token_ref()) {
            Some(i) => {
                assert(self@[i as int] == self.records@[i as int]@);
                if !self.records[i].refresh_ref().eq(rec.refresh_ref()) {
                    return Err(StratError::UniqueExists);
                }
                assert forall|k: int| 0 <= k < s.len() && (#[trigger] s[k]).token == rec@.token
                    implies s[k].refresh == rec@.refresh by {
                    if k != i {
                        assert(s[k].token != s[i as int].token);
                    }
                }
            },
            None => {},
        }
        assert(!access_conflict(s, rec@));
        proof {
            lemma_upserted_wf(s, rec@);
        }
        match self.position_of_refresh(rec.refresh_ref()) {
            Some(j) => {
                proof {
                    lemma_found_at(s, j as int);
                }
                self.records.set(j, rec);
                assert(self@ =~= upserted(s, rec@));
            },
            None => {
                self.records.push(rec);
                assert(self@ =~= upserted(s, rec@));
            },
        }
        Ok(())
    }

    /// Removes the session whose refresh token is `token`; `true` when there was one.
    pub fn delete_by_refresh_token(&mut self, token: &String) -> (r: bool)
        requires
            old(self).wf(),
        ensures
            final(self).wf(),
            r == has_refresh(old(self)@, token@),
            final(self)@ == removed(old(self)@, token@),
    {
        let ghost s = self@;
        proof {
            lemma_removed_wf(s, token@);
        }
        match self.position_of_refresh(token) {
            Some(j) => {
                proof {
                    lemma_found_at(s, j as int);
                }
                self.records.remove(j);
                assert(self@ =~= removed(s, token@));
                true
            },
            None => false,
        }
    }
}

} // verus!
