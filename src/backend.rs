use vstd::prelude::*;
use vstd::utf8::encode_utf8;
use crate::error::AuthError;
use crate::hasher::{argon2_accepts, hash_passwords, verify_password, MAX_PASSWORD_BYTES};
use crate::store::{found_by_id, has_username, opt_view, UserStore};
use crate::user::{Credentials, User, UserView};

verus! {

/// What authenticating `name` with `password` against `rows` yields: the
/// user with that name when the password checks out, and nothing otherwise.
pub open spec fn authenticated(
    rows: Seq<UserView>,
    name: Seq<char>,
    password: Seq<char>,
    r: Option<UserView>,
) -> bool {
    match r {
        Some(u) => u.username == name && rows.contains(u) && argon2_accepts(u.pw_hash, password),
        None => forall|i: int|
            0 <= i < rows.len() && (#[trigger] rows[i]).username == name ==> !argon2_accepts(
                rows[i].pw_hash,
                password,
            ),
    }
}

/// The outcome of checking `password` against a fetched row.
pub open spec fn checked_row(row: Option<UserView>, password: Seq<char>) -> Option<UserView> {
    match row {
        Some(u) => if argon2_accepts(u.pw_hash, password) {
            Some(u)
        } else {
            None
        },
        None => None,
    }
}

/// Checks `password` against the row fetched for a username: the row comes
/// back only when the password verifies. A missing row and a wrong password
/// give the same answer.
pub fn check_password(row: Option<User>, password: &str) -> (r: Option<User>)
    ensures
        opt_view(r) == checked_row(opt_view(row), password@),
{
    match row {
        Some(u) => if verify_password(u.session_auth_hash(), password) {
            Some(u)
        } else {
            None
        },
        None => None,
    }
}

/// Authentication backend over a user store: checks credentials and
/// rehydrates users by id for the session layer.
pub struct Backend {
    users: UserStore,
}

impl View for Backend {
    type V = Seq<UserView>;

    closed spec fn view(&self) -> Seq<UserView> {
        self.users@
    }
}

impl Backend {
    pub open spec fn wf(&self) -> bool {
        crate::store::rows_wf(self@, self.next_id())
    }

    /// The id the next registration will receive.
    pub closed spec fn next_id(&self) -> i64 {
        self.users.spec_next_id()
    }

    pub fn new(users: UserStore) -> (r: Backend)
        requires
            users.wf(),
        ensures
            r.wf(),
            r@ == users@,
            r.next_id() == users.spec_next_id(),
    {
        Backend { users }
    }

    /// The underlying store.
    pub fn users(&self) -> (r: &UserStore)
        ensures
            r@ == self@,
            r.wf() == self.wf(),
            r.spec_next_id() == self.next_id(),
    {
        &self.users
    }

    /// The user named in `creds` when its password verifies; `None` for an
    /// unknown username and for a wrong password alike.
    pub fn authenticate(&self, creds: Credentials) -> (r: Option<User>)
        requires
            self.wf(),
        ensures
            authenticated(self@, creds.username@, creds.password@, opt_view(r)),
    {
        let row = self.users.find_by_username(creds.username.as_str());
        check_password(row, creds.password.as_str())
    }

    /// The user with id `id`, if it still exists.
    pub fn get_user(&self, id: &i64) -> (r: Option<User>)
        ensures
            found_by_id(self@, *id, opt_view(r)),
    {
        self.users.find_by_id(*id)
    }

    /// Registers a user: the password is hashed and stored with the username.
    /// Empty credentials are rejected; a taken username gives `Conflict` and
    /// leaves the store as it was. Valid credentials with a free username
    /// are registered while ids remain.
    pub fn register(&mut self, creds: &Credentials) -> (r: Result<i64, AuthError>)
        requires
            old(self).wf(),
        ensures
            final(self).wf(),
            (creds.username@.len() == 0 || creds.password@.len() == 0) <==> r == Err::<
                i64,
                AuthError,
            >(AuthError::Validation),
            (creds.username@.len() > 0 && creds.password@.len() > 0 && has_username(
                old(self)@,
                creds.username@,
            )) <==> r == Err::<i64, AuthError>(AuthError::Conflict),
            r == Err::<i64, AuthError>(AuthError::Store) ==> old(self).next_id()
                == i64::MAX,
            r == Err::<i64, AuthError>(AuthError::Hashing) ==> encode_utf8(creds.password@).len()
                > MAX_PASSWORD_BYTES,
            creds.well_formed() && !has_username(old(self)@, creds.username@) && old(self).next_id()
                < i64::MAX && encode_utf8(creds.password@).len() <= MAX_PASSWORD_BYTES ==> r is Ok,
            r is Err ==> final(self)@ == old(self)@,
            r matches Ok(id) ==> {
                &&& id == old(self).next_id()
                &&& exists|h: Seq<u8>|
                    argon2_accepts(h, creds.password@) && final(self)@ == old(self)@.push(
                        UserView { id, username: creds.username@, pw_hash: h },
                    )
            },
    {
        match creds.validate_credentials() {
            Ok(()) => {},
            Err(e) => return Err(e),
        }
        if self.users.find_by_username(creds.username.as_str()).is_some() {
            return Err(AuthError::Conflict);
        }
        let encoded = match hash_passwords(creds.password.as_str()) {
            Ok(h) => h,
            Err(e) => return Err(e),
        };
        let pw_hash = vstd::slice::slice_to_vec(encoded.as_str().as_bytes());
        assert(pw_hash@ == encode_utf8(encoded@));
        self.users.insert(creds.username.as_str(), pw_hash)
    }

    /// Sets a new password for the user with id `id`. `Ok(false)` when there
    /// is no such user.
    pub fn change_password(&mut self, id: i64, password: &str) -> (r: Result<bool, AuthError>)
        requires
            old(self).wf(),
        ensures
            final(self).wf(),
            r is Err ==> final(self)@ == old(self)@ && r == Err::<bool, AuthError>(AuthError::Hashing),
            r is Err ==> encode_utf8(password@).len() > MAX_PASSWORD_BYTES,
            r == Ok::<bool, AuthError>(false) ==> final(self)@ == old(self)@,
            r matches Ok(b) ==> b == crate::store::has_id(old(self)@, id),
            r == Ok::<bool, AuthError>(true) ==> exists|i: int, h: Seq<u8>|
                0 <= i < old(self)@.len() && old(self)@[i].id == id && argon2_accepts(h, password@)
                    && final(self)@ == old(self)@.update(
                    i,
                    UserView { id, username: old(self)@[i].username, pw_hash: h },
                ),
    {
        let encoded = match hash_passwords(password) {
            Ok(h) => h,
            Err(e) => return Err(e),
        };
        let pw_hash = vstd::slice::slice_to_vec(encoded.as_str().as_bytes());
        let ghost h = pw_hash@;
        let ghost before = self@;
        assert(argon2_accepts(h, password@));
        let found = self.users.set_password_hash(id, pw_hash);
        proof {
            if found {
                let i = choose|i: int|
                    0 <= i < before.len() && before[i].id == id && self@ == before.update(
                        i,
                        UserView { id, username: before[i].username, pw_hash: h },
                    );
                assert(0 <= i < before.len() && before[i].id == id && argon2_accepts(h, password@)
                    && self@ == before.update(
                    i,
                    UserView { id, username: before[i].username, pw_hash: h },
                ));
            }
        }
        Ok(found)
    }
}

} // verus!
