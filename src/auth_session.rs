use vstd::prelude::*;
use crate::backend::{authenticated, Backend};
use crate::error::AuthError;
use crate::session::{
    has_live_token, has_token, refreshed, validated_as, Session, SessionStore, SessionView, LATEST_TIME,
    SESSION_TTL_SECS,
};
use crate::store::opt_view;
use crate::user::{bytes_equal, Credentials, User, UserView};

verus! {

/// The session with token `token` is live at `now` and names `u`, a user of
/// `users` whose password hash is still the one the session was bound to.
pub open spec fn resolves_to(
    users: Seq<UserView>,
    ss: Seq<SessionView>,
    token: Seq<char>,
    now: i64,
    u: UserView,
) -> bool {
    exists|i: int|
        0 <= i < ss.len() && (#[trigger] ss[i]).token == token && now < ss[i].expiry
            && users.contains(u) && u.id == ss[i].user_id && u.pw_hash == ss[i].auth_hash
}

/// Whether `token` resolves to some user at `now`.
pub open spec fn resolves(users: Seq<UserView>, ss: Seq<SessionView>, token: Seq<char>, now: i64) -> bool {
    exists|u: UserView| resolves_to(users, ss, token, now, u)
}

/// `after` is `ss` without the session with token `token`.
pub open spec fn removed_token(ss: Seq<SessionView>, token: Seq<char>, after: Seq<SessionView>) -> bool {
    exists|i: int| 0 <= i < ss.len() && (#[trigger] ss[i]).token == token && after == ss.remove(i)
}

/// Resolves the user behind a session token: the session must be live, its
/// user must still exist, and the user's password hash must be the one the
/// session was bound to. A live session that fails either of the last two
/// checks is deleted; a session that resolves is refreshed.
pub fn resolve_identity(backend: &Backend, sessions: &mut SessionStore, token: &str, now: i64) -> (r:
    Option<User>)
    requires
        backend.wf(),
        old(sessions).wf(),
        now <= LATEST_TIME,
    ensures
        final(sessions).wf(),
        r is Some <==> resolves(backend@, old(sessions)@, token@, now),
        r matches Some(u) ==> resolves_to(backend@, old(sessions)@, token@, now, u@)
            && exists|s: SessionView| validated_as(old(sessions)@, token@, now, s, final(sessions)@),
        r is None && !has_live_token(old(sessions)@, token@, now) ==> final(sessions)@ == old(
            sessions,
        )@,
        r is None && has_live_token(old(sessions)@, token@, now) ==> removed_token(
            old(sessions)@,
            token@,
            final(sessions)@,
        ),
{
    let ghost ss = sessions@;
    let ghost users = backend@;
    let session = match sessions.validate(token, now) {
        Some(s) => s,
        None => {
            assert(!resolves(users, ss, token@, now));
            return None;
        },
    };
    let ghost after = sessions@;
    let ghost i = choose|i: int|
        0 <= i < ss.len() && (#[trigger] ss[i]).token == token@ && now < ss[i].expiry && session@
            == refreshed(ss[i], now) && after == ss.update(i, session@);
    proof {
        assert forall|k: int| 0 <= k < ss.len() && (#[trigger] ss[k]).token == token@ implies k
            == i by {}
    }
    let found = backend.get_user(&session.user_id);
    match found {
        Some(u) => {
            if bytes_equal(u.session_auth_hash(), session.auth_hash.as_slice()) {
                assert(resolves_to(users, ss, token@, now, u@));
                Some(u)
            } else {
                proof {
                    assert forall|v: UserView| !resolves_to(users, ss, token@, now, v) by {
                        if resolves_to(users, ss, token@, now, v) {
                            let j = choose|j: int| 0 <= j < users.len() && users[j] == v;
                            let m = choose|m: int| 0 <= m < users.len() && users[m] == u@;
                            assert(j == m);
                        }
                    }
                }
                sessions.destroy(token);
                proof {
                    let k = choose|k: int|
                        0 <= k < after.len() && after[k].token == token@ && sessions@ == after.remove(k);
                    assert(after[i].token == token@);
                    assert(k == i);
                    assert(after.remove(i) =~= ss.remove(i));
                }
                None
            }
        },
        None => {
            proof {
                assert forall|v: UserView| !resolves_to(users, ss, token@, now, v) by {
                    if resolves_to(users, ss, token@, now, v) {
                        let j = choose|j: int| 0 <= j < users.len() && users[j] == v;
                        assert(users[j].id == session.user_id);
                    }
                }
            }
            sessions.destroy(token);
            proof {
                let k = choose|k: int|
                    0 <= k < after.len() && after[k].token == token@ && sessions@ == after.remove(k);
                assert(after[i].token == token@);
                assert(k == i);
                assert(after.remove(i) =~= ss.remove(i));
            }
            None
        },
    }
}

/// The per-request view of authentication: the session token the client
/// holds, if any, and the user it resolved to.
pub struct AuthSession {
    token: Option<String>,
    user: Option<User>,
}

impl AuthSession {
    /// The user this request is authenticated as.
    pub closed spec fn user_view(&self) -> Option<UserView> {
        opt_view(self.user)
    }

    /// The session token this request carries.
    pub closed spec fn token_view(&self) -> Option<Seq<char>> {
        match self.token {
            Some(t) => Some(t@),
            None => None,
        }
    }

    /// A request with no session.
    pub fn anonymous() -> (r: AuthSession)
        ensures
            r.user_view() is None,
            r.token_view() is None,
    {
        AuthSession { token: None, user: None }
    }

    /// Builds the per-request state from the token the client sent: the token
    /// is kept, and the user is the one it resolves to.
    pub fn from_token(
        backend: &Backend,
        sessions: &mut SessionStore,
        token: Option<String>,
        now: i64,
    ) -> (r: AuthSession)
        requires
            backend.wf(),
            old(sessions).wf(),
            now <= LATEST_TIME,
        ensures
            final(sessions).wf(),
            token is None ==> r.user_view() is None && r.token_view() is None && final(sessions)@
                == old(sessions)@,
            token matches Some(t) ==> {
                &&& r.token_view() == Some(t@)
                &&& r.user_view() is Some <==> resolves(backend@, old(sessions)@, t@, now)
                &&& r.user_view() matches Some(u) ==> resolves_to(
                    backend@,
                    old(sessions)@,
                    t@,
                    now,
                    u,
                )
            },
    {
        match token {
            Some(t) => {
                let user = resolve_identity(backend, sessions, t.as_str(), now);
                AuthSession { token: Some(t), user }
            },
            None => AuthSession { token: None, user: None },
        }
    }

    /// The user this request is authenticated as, if any.
    pub fn current_user(&self) -> (r: Option<User>)
        ensures
            opt_view(r) == self.user_view(),
    {
        match &self.user {
            Some(u) => Some(u.duplicate()),
            None => None,
        }
    }

    /// The session token to hand back to the client, if any.
    pub fn token(&self) -> (r: Option<String>)
        ensures
            r matches Some(t) ==> self.token_view() == Some(t@),
            r is None ==> self.token_view() is None,
    {
        match &self.token {
            Some(t) => Some(t.clone()),
            None => None,
        }
    }

    /// Logs in with `creds`: on success a new session bound to the user is
    /// stored and this request becomes authenticated under its token. Wrong
    /// credentials give `AuthenticationFailure` whatever their cause, and
    /// change nothing. `Conflict` comes only when the fresh random token
    /// collides with a stored one, so it needs a non-empty session store.
    pub fn login(
        &mut self,
        backend: &Backend,
        sessions: &mut SessionStore,
        creds: Credentials,
        now: i64,
    ) -> (r: Result<(), AuthError>)
        requires
            backend.wf(),
            old(sessions).wf(),
            now <= LATEST_TIME,
        ensures
            final(sessions).wf(),
            r == Err::<(), AuthError>(AuthError::AuthenticationFailure) <==> authenticated(
                backend@,
                creds.username@,
                creds.password@,
                None,
            ),
            r matches Err(e) ==> (e == AuthError::AuthenticationFailure || e == AuthError::Conflict)
                && final(sessions)@ == old(sessions)@ && final(self).user_view() == old(
                self,
            ).user_view() && final(self).token_view() == old(self).token_view(),
            r == Err::<(), AuthError>(AuthError::Conflict) ==> old(sessions)@.len() > 0,
            r is Ok ==> exists|u: UserView, t: Seq<char>|
                {
                    &&& authenticated(backend@, creds.username@, creds.password@, Some(u))
                    &&& final(self).user_view() == Some(u)
                    &&& final(self).token_view() == Some(t)
                    &&& !has_token(old(sessions)@, t)
                    &&& final(sessions)@ == old(sessions)@.push(
                        SessionView {
                            token: t,
                            user_id: u.id,
                            auth_hash: u.pw_hash,
                            expiry: (now + SESSION_TTL_SECS) as i64,
                        },
                    )
                },
    {
        let user = match backend.authenticate(creds) {
            Some(u) => u,
            None => return Err(AuthError::AuthenticationFailure),
        };
        let session: Session = match sessions.create(&user, now) {
            Ok(s) => s,
            Err(e) => return Err(e),
        };
        let ghost u = user@;
        let ghost t = session.token@;
        self.token = Some(session.token);
        self.user = Some(user);
        assert(final(self).user_view() == Some(u));
        Ok(())
    }

    /// Logs out: the session behind this request's token is deleted, if
    /// there is one, and the request becomes anonymous.
    pub fn logout(&mut self, sessions: &mut SessionStore)
        requires
            old(sessions).wf(),
        ensures
            final(sessions).wf(),
            final(self).user_view() is None,
            final(self).token_view() is None,
            old(self).token_view() is None ==> final(sessions)@ == old(sessions)@,
            old(self).token_view() matches Some(t) ==> !has_token(final(sessions)@, t) && (
            has_token(old(sessions)@, t) ==> removed_token(old(sessions)@, t, final(sessions)@)) && (
            !has_token(old(sessions)@, t) ==> final(sessions)@ == old(sessions)@),
    {
        match &self.token {
            Some(t) => sessions.destroy(t.as_str()),
            None => {},
        }
        self.token = None;
        self.user = None;
    }
}

} // verus!
