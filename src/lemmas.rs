use vstd::prelude::*;
use crate::auth_session::{resolves, resolves_to};
use crate::backend::authenticated;
use crate::hasher::argon2_accepts;
use crate::session::{has_live_token, has_token, sessions_wf, unexpired, SessionView, SESSION_TTL_SECS};
use crate::store::{has_username, rows_wf};
use crate::user::UserView;

verus! {

/// An unknown username and a known username with a wrong password give the
/// same answer: no user.
pub proof fn lemma_failed_logins_look_alike(
    rows: Seq<UserView>,
    next_id: i64,
    name: Seq<char>,
    password: Seq<char>,
    r: Option<UserView>,
)
    requires
        rows_wf(rows, next_id),
        !has_username(rows, name) || exists|i: int|
            0 <= i < rows.len() && (#[trigger] rows[i]).username == name && !argon2_accepts(
                rows[i].pw_hash,
                password,
            ),
        authenticated(rows, name, password, r),
    ensures
        r is None,
{
    if let Some(u) = r {
        let k = choose|k: int| 0 <= k < rows.len() && rows[k] == u;
        assert(rows[k].username == name);
        if has_username(rows, name) {
            let i = choose|i: int|
                0 <= i < rows.len() && (#[trigger] rows[i]).username == name && !argon2_accepts(
                    rows[i].pw_hash,
                    password,
                );
            assert(i == k);
        }
    }
}

/// A session just issued to a user resolves to that user for as long as it
/// is live, while the user's password hash is unchanged.
pub proof fn lemma_new_session_resolves(
    users: Seq<UserView>,
    ss: Seq<SessionView>,
    u: UserView,
    token: Seq<char>,
    issued: i64,
    now: i64,
)
    requires
        users.contains(u),
        !has_token(ss, token),
        issued <= now < issued + SESSION_TTL_SECS,
        issued + SESSION_TTL_SECS <= i64::MAX,
    ensures
        resolves_to(
            users,
            ss.push(
                SessionView {
                    token,
                    user_id: u.id,
                    auth_hash: u.pw_hash,
                    expiry: (issued + SESSION_TTL_SECS) as i64,
                },
            ),
            token,
            now,
            u,
        ),
{
    let s = SessionView {
        token,
        user_id: u.id,
        auth_hash: u.pw_hash,
        expiry: (issued + SESSION_TTL_SECS) as i64,
    };
    let ss2 = ss.push(s);
    assert(ss2[ss.len() as int] == s);
}

/// A token with no stored session resolves to nobody: after logout the
/// same token no longer identifies a user.
pub proof fn lemma_removed_token_resolves_to_nobody(
    users: Seq<UserView>,
    ss: Seq<SessionView>,
    token: Seq<char>,
    now: i64,
)
    requires
        !has_token(ss, token),
    ensures
        !resolves(users, ss, token, now),
{
}

/// Once the password hash of a session's user changes, the session no
/// longer resolves to anyone.
pub proof fn lemma_password_change_invalidates(
    users: Seq<UserView>,
    next_id: i64,
    ss: Seq<SessionView>,
    i: int,
    j: int,
    new_hash: Seq<u8>,
    now: i64,
)
    requires
        rows_wf(users, next_id),
        sessions_wf(ss),
        0 <= i < ss.len(),
        0 <= j < users.len(),
        users[j].id == ss[i].user_id,
        ss[i].auth_hash == users[j].pw_hash,
        new_hash != users[j].pw_hash,
    ensures
        !resolves(
            users.update(j, UserView { pw_hash: new_hash, ..users[j] }),
            ss,
            ss[i].token,
            now,
        ),
{
    let changed = users.update(j, UserView { pw_hash: new_hash, ..users[j] });
    assert forall|v: UserView| !resolves_to(changed, ss, ss[i].token, now, v) by {
        if resolves_to(changed, ss, ss[i].token, now, v) {
            let k = choose|k: int|
                0 <= k < ss.len() && (#[trigger] ss[k]).token == ss[i].token && now < ss[k].expiry
                    && changed.contains(v) && v.id == ss[k].user_id && v.pw_hash == ss[k].auth_hash;
            assert(k == i);
            let m = choose|m: int| 0 <= m < changed.len() && changed[m] == v;
            if m != j {
                assert(users[m].id == changed[m].id);
            }
            assert(m == j);
        }
    }
}

/// After a reaper pass at `now`, a session that expired before `now` is
/// gone, so its token is never valid again.
pub proof fn lemma_reaped_session_is_gone(ss: Seq<SessionView>, i: int, now: i64, later: i64)
    requires
        sessions_wf(ss),
        0 <= i < ss.len(),
        ss[i].expiry < now,
    ensures
        !has_token(unexpired(ss, now), ss[i].token),
        !has_live_token(unexpired(ss, now), ss[i].token, later),
{
    let pred = |s: SessionView| s.expiry >= now;
    let kept = unexpired(ss, now);
    assert forall|k: int| 0 <= k < kept.len() implies (#[trigger] kept[k]).token != ss[i].token by {
        assert(kept.contains(kept[k]));
        ss.lemma_filter_contains_rev(pred, kept[k]);
        ss.lemma_filter_pred(pred, k);
        let m = choose|m: int| 0 <= m < ss.len() && ss[m] == kept[k];
        if m == i {
            assert(!pred(ss[i]));
        }
    }
}

/// Of two registrations of the same username, the one applied second finds
/// the name taken: a successful insertion makes the username present, and
/// registering a present username is a conflict.
pub proof fn lemma_second_registration_conflicts(
    rows: Seq<UserView>,
    id: i64,
    name: Seq<char>,
    pw_hash: Seq<u8>,
)
    ensures
        has_username(rows.push(UserView { id, username: name, pw_hash }), name),
{
    let after = rows.push(UserView { id, username: name, pw_hash });
    assert(after[rows.len() as int].username == name);
}

} // verus!
