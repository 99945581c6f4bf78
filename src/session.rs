use vstd::prelude::*;
use crate::error::AuthError;
use crate::user::{copy_bytes, User};

verus! {

/// Seconds of inactivity after which a session expires.
pub const SESSION_TTL_SECS: i64 = 86400;

/// The latest time at which a session can be created or refreshed, so that
/// its expiry still fits in an `i64`.
pub const LATEST_TIME: i64 = 9223372036854689407;

/// The mathematical value of a [`Session`].
pub struct SessionView {
    pub token: Seq<char>,
    pub user_id: i64,
    pub auth_hash: Seq<u8>,
    pub expiry: i64,
}

/// A server-side session: an opaque token bound to a user id and to the
/// user's password hash at issuance time, valid while `now < expiry`
/// (seconds since the Unix epoch).
#[derive(Debug, Clone)]
pub struct Session {
    pub token: String,
    pub user_id: i64,
    pub auth_hash: Vec<u8>,
    pub expiry: i64,
}

impl View for Session {
    type V = SessionView;

    open spec fn view(&self) -> SessionView {
        SessionView {
            token: self.token@,
            user_id: self.user_id,
            auth_hash: self.auth_hash@,
            expiry: self.expiry,
        }
    }
}

impl Session {
    /// A copy of this session with the same view.
    pub fn duplicate(&self) -> (r: Session)
        ensures
            r@ == self@,
    {
        Session {
            token: self.token.clone(),
            user_id: self.user_id,
            auth_hash: copy_bytes(&self.auth_hash),
            expiry: self.expiry,
        }
    }
}

/// Whether some session of `ss` has token `token`.
pub open spec fn has_token(ss: Seq<SessionView>, token: Seq<char>) -> bool {
    exists|i: int| 0 <= i < ss.len() && (#[trigger] ss[i]).token == token
}

/// Whether some session of `ss` with token `token` is still valid at `now`.
pub open spec fn has_live_token(ss: Seq<SessionView>, token: Seq<char>, now: i64) -> bool {
    exists|i: int| 0 <= i < ss.len() && (#[trigger] ss[i]).token == token && now < ss[i].expiry
}

/// Tokens are unique.
pub open spec fn sessions_wf(ss: Seq<SessionView>) -> bool {
    forall|i: int, j: int|
        0 <= i < ss.len() && 0 <= j < ss.len() && i != j ==> (#[trigger] ss[i]).token != (
        #[trigger] ss[j]).token
}

/// The sessions that a reaper pass at `now` keeps: those not yet past expiry.
pub open spec fn unexpired(ss: Seq<SessionView>, now: i64) -> Seq<SessionView> {
    ss.filter(|s: SessionView| s.expiry >= now)
}

/// The session `s` refreshed at `now`: same token, user and hash, new expiry.
pub open spec fn refreshed(s: SessionView, now: i64) -> SessionView {
    SessionView { expiry: (now + SESSION_TTL_SECS) as i64, ..s }
}

/// A successful validation of `token` at `now` on `ss`: the live session
/// with that token is refreshed in place, giving `s` and the sessions `after`.
pub open spec fn validated_as(
    ss: Seq<SessionView>,
    token: Seq<char>,
    now: i64,
    s: SessionView,
    after: Seq<SessionView>,
) -> bool {
    exists|i: int|
        0 <= i < ss.len() && (#[trigger] ss[i]).token == token && now < ss[i].expiry && s
            == refreshed(ss[i], now) && after == ss.update(i, s)
}

/// Relies on `uuid::Uuid::new_v4`: a random version-4 UUID, rendered as a
/// string, serves as an unguessable session token.
#[verifier::external_body]
fn new_token() -> (r: String) {
    uuid::Uuid::new_v4().to_string()
}

/// Session records, keyed by unique token.
pub struct SessionStore {
    sessions: Vec<Session>,
}

impl View for SessionStore {
    type V = Seq<SessionView>;

    closed spec fn view(&self) -> Seq<SessionView> {
        self.sessions@.map_values(|s: Session| s@)
    }
}

impl SessionStore {
    pub open spec fn wf(&self) -> bool {
        sessions_wf(self@)
    }

    pub fn new() -> (r: SessionStore)
        ensures
            r.wf(),
            r@ == Seq::<SessionView>::empty(),
    {
        let r = SessionStore { sessions: Vec::new() };
        assert(r@ =~= Seq::<SessionView>::empty());
        r
    }

    /// The number of stored sessions.
    pub fn len(&self) -> (r: usize)
        ensures
            r == self@.len(),
    {
        self.sessions.len()
    }

    fn index_of(&self, token: &str) -> (r: Option<usize>)
        ensures
            r matches Some(i) ==> i < self@.len() && self@[i as int].token == token@,
            r is None ==> !has_token(self@, token@),
    {
        let target = token.to_owned();
        let mut i: usize = 0;
        while i < self.sessions.len()
            invariant
                i <= self.sessions@.len(),
                target@ == token@,
                self@ == self.sessions@.map_values(|s: Session| s@),
                forall|k: int| 0 <= k < i ==> (#[trigger] self@[k]).token != token@,
            decreases self.sessions@.len() - i,
        {
            if self.sessions[i].token == target {
                return Some(i);
            }
            i = i + 1;
        }
        None
    }

    /// The stored session with token `token`, whether or not it has expired.
    pub fn get(&self, token: &str) -> (r: Option<Session>)
        ensures
            r matches Some(s) ==> s@.token == token@ && self@.contains(s@),
            r is None ==> !has_token(self@, token@),
    {
        match self.index_of(token) {
            Some(i) => {
                let s = self.sessions[i].duplicate();
                assert(self@[i as int] == s@);
                Some(s)
            },
            None => None,
        }
    }

    /// Stores a session for `user` under `token`, expiring one time-to-live
    /// after `now`. A token already in use gives `Conflict` and changes
    /// nothing.
    pub fn create_with_token(&mut self, token: String, user: &User, now: i64) -> (r: Result<
        Session,
        AuthError,
    >)
        requires
            old(self).wf(),
            now <= LATEST_TIME,
        ensures
            final(self).wf(),
            has_token(old(self)@, token@) <==> r is Err,
            r matches Err(e) ==> e == AuthError::Conflict && final(self)@ == old(self)@,
            r matches Ok(s) ==> {
                &&& s@ == SessionView {
                    token: token@,
                    user_id: user.id,
                    auth_hash: user.pw_hash@,
                    expiry: (now + SESSION_TTL_SECS) as i64,
                }
                &&& final(self)@ == old(self)@.push(s@)
            },
    {
        if self.index_of(token.as_str()).is_some() {
            return Err(AuthError::Conflict);
        }
        let s = Session {
            token,
            user_id: user.id,
            auth_hash: copy_bytes(&user.pw_hash),
            expiry: now + SESSION_TTL_SECS,
        };
        let r = s.duplicate();
        let ghost before = self@;
        self.sessions.push(s);
        assert(self@ =~= before.push(r@));
        Ok(r)
    }

    /// Issues a session for `user` under a fresh random token.
    pub fn create(&mut self, user: &User, now: i64) -> (r: Result<Session, AuthError>)
        requires
            old(self).wf(),
            now <= LATEST_TIME,
        ensures
            final(self).wf(),
            r matches Err(e) ==> e == AuthError::Conflict && final(self)@ == old(self)@,
            r is Err ==> old(self)@.len() > 0,
            r matches Ok(s) ==> {
                &&& !has_token(old(self)@, s@.token)
                &&& s.user_id == user.id
                &&& s.auth_hash@ == user.pw_hash@
                &&& s.expiry == now + SESSION_TTL_SECS
                &&& final(self)@ == old(self)@.push(s@)
            },
    {
        let token = new_token();
        self.create_with_token(token, user, now)
    }

    /// The session with token `token` if it is still valid at `now`; a
    /// valid session has its expiry moved to one time-to-live after `now`.
    /// Absent and expired sessions give `None` and change nothing.
    pub fn validate(&mut self, token: &str, now: i64) -> (r: Option<Session>)
        requires
            old(self).wf(),
            now <= LATEST_TIME,
        ensures
            final(self).wf(),
            r is Some <==> has_live_token(old(self)@, token@, now),
            r is None ==> final(self)@ == old(self)@,
            r matches Some(s) ==> validated_as(old(self)@, token@, now, s@, final(self)@),
    {
        match self.index_of(token) {
            Some(i) => {
                if self.sessions[i].expiry <= now {
                    assert(!has_live_token(self@, token@, now));
                    return None;
                }
                let ghost before = self@;
                let mut s = self.sessions[i].duplicate();
                s.expiry = now + SESSION_TTL_SECS;
                let r = s.duplicate();
                self.sessions.set(i, s);
                assert(self@ =~= before.update(i as int, r@));
                assert(r@ == refreshed(before[i as int], now));
                assert(validated_as(before, token@, now, r@, self@)) by {
                    assert(0 <= i < before.len() && before[i as int].token == token@
                        && now < before[i as int].expiry && r@ == refreshed(before[i as int], now)
                        && self@ == before.update(i as int, r@));
                }
                Some(r)
            },
            None => None,
        }
    }

    /// Deletes the session with token `token`; deleting an absent token is
    /// no error.
    pub fn destroy(&mut self, token: &str)
        requires
            old(self).wf(),
        ensures
            final(self).wf(),
            !has_token(final(self)@, token@),
            !has_token(old(self)@, token@) ==> final(self)@ == old(self)@,
            has_token(old(self)@, token@) ==> exists|i: int|
                0 <= i < old(self)@.len() && old(self)@[i].token == token@
                    && final(self)@ == old(self)@.remove(i),
    {
        match self.index_of(token) {
            Some(i) => {
                let ghost before = self@;
                self.sessions.remove(i);
                assert(self@ =~= before.remove(i as int));
                assert forall|a: int, b: int|
                    0 <= a < self@.len() && 0 <= b < self@.len() && a != b implies (
                    #[trigger] self@[a]).token != (#[trigger] self@[b]).token by {
                    let a0 = if a < i { a } else { a + 1 };
                    let b0 = if b < i { b } else { b + 1 };
                    assert(self@[a] == before[a0]);
                    assert(self@[b] == before[b0]);
                }
                assert forall|k: int| 0 <= k < self@.len() implies (#[trigger] self@[k]).token
                    != token@ by {
                    let k0 = if k < i { k } else { k + 1 };
                    assert(self@[k] == before[k0]);
                }
            },
            None => {},
        }
    }

    /// One reaper pass: deletes every session whose expiry is before `now`,
    /// keeping the others in order, and returns how many were deleted.
    pub fn delete_expired(&mut self, now: i64) -> (r: usize)
        requires
            old(self).wf(),
        ensures
            final(self).wf(),
            final(self)@ == unexpired(old(self)@, now),
            r == old(self)@.len() - final(self)@.len(),
    {
        let ghost before = self@;
        let ghost pred = |s: SessionView| s.expiry >= now;
        let mut kept: Vec<Session> = Vec::new();
        let mut i: usize = 0;
        while i < self.sessions.len()
            invariant
                i <= self.sessions@.len(),
                before == self.sessions@.map_values(|s: Session| s@),
                pred == (|s: SessionView| s.expiry >= now),
                kept@.map_values(|s: Session| s@) == before.subrange(0, i as int).filter(pred),
                kept@.len() <= i,
            decreases self.sessions@.len() - i,
        {
            let ghost prefix = before.subrange(0, i as int);
            let ghost next = before.subrange(0, i + 1);
            proof {
                assert(next.drop_last() =~= prefix);
                assert(next.last() == before[i as int]);
                reveal_with_fuel(Seq::filter, 1);
                prefix.lemma_filter_len(pred);
            }
            assert(before[i as int] == self.sessions@[i as int]@);
            let ghost old_kept = kept@;
            if self.sessions[i].expiry >= now {
                let s = self.sessions[i].duplicate();
                kept.push(s);
                assert(kept@.map_values(|s: Session| s@) =~= old_kept.map_values(|s: Session| s@).push(
                    before[i as int],
                ));
                assert(pred(before[i as int]));
                assert(next.filter(pred) == prefix.filter(pred).push(before[i as int]));
            } else {
                assert(!pred(before[i as int]));
                assert(next.filter(pred) == prefix.filter(pred));
            }
            assert(kept@.map_values(|s: Session| s@) == next.filter(pred));
            i = i + 1;
        }
        assert(before.subrange(0, before.len() as int) =~= before);
        let removed = self.sessions.len() - kept.len();
        self.sessions = kept;
        proof {
            assert(self@ == unexpired(before, now));
            assert forall|a: int, b: int|
                0 <= a < self@.len() && 0 <= b < self@.len() && a != b implies (
                #[trigger] self@[a]).token != (#[trigger] self@[b]).token by {
                lemma_filter_keeps_distinct_tokens(before, now);
            }
        }
        removed
    }
}

/// Filtering keeps tokens unique.
proof fn lemma_filter_keeps_distinct_tokens(ss: Seq<SessionView>, now: i64)
    requires
        sessions_wf(ss),
    ensures
        sessions_wf(unexpired(ss, now)),
    decreases ss.len(),
{
    let pred = |s: SessionView| s.expiry >= now;
    reveal_with_fuel(Seq::filter, 1);
    if ss.len() > 0 {
        let rest = ss.drop_last();
        assert forall|i: int, j: int|
            0 <= i < rest.len() && 0 <= j < rest.len() && i != j implies (#[trigger] rest[i]).token
            != (#[trigger] rest[j]).token by {
            assert(rest[i] == ss[i] && rest[j] == ss[j]);
        }
        lemma_filter_keeps_distinct_tokens(rest, now);
        let f = rest.filter(pred);
        if pred(ss.last()) {
            assert forall|k: int| 0 <= k < f.len() implies (#[trigger] f[k]).token != ss.last().token by {
                assert(f.contains(f[k]));
                rest.lemma_filter_contains_rev(pred, f[k]);
                assert(rest.contains(f[k]));
                let m = choose|m: int| 0 <= m < rest.len() && rest[m] == f[k];
                assert(ss[m] == f[k]);
            }
            let g = f.push(ss.last());
            assert forall|i: int, j: int|
                0 <= i < g.len() && 0 <= j < g.len() && i != j implies (#[trigger] g[i]).token
                != (#[trigger] g[j]).token by {
                if i < f.len() && j < f.len() {
                    assert(g[i] == f[i] && g[j] == f[j]);
                }
            }
        }
    }
}

} // verus!
