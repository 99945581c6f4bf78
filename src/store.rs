use vstd::prelude::*;
use crate::error::AuthError;
use crate::user::{User, UserView};

verus! {

/// Whether some row of `rows` has username `name`.
pub open spec fn has_username(rows: Seq<UserView>, name: Seq<char>) -> bool {
    exists|i: int| 0 <= i < rows.len() && (#[trigger] rows[i]).username == name
}

/// Whether some row of `rows` has id `id`.
pub open spec fn has_id(rows: Seq<UserView>, id: i64) -> bool {
    exists|i: int| 0 <= i < rows.len() && (#[trigger] rows[i]).id == id
}

/// Usernames and ids are unique, and every id is below `next_id`.
pub open spec fn rows_wf(rows: Seq<UserView>, next_id: i64) -> bool {
    &&& next_id >= 1
    &&& forall|i: int| 0 <= i < rows.len() ==> 1 <= (#[trigger] rows[i]).id < next_id
    &&& forall|i: int, j: int|
        0 <= i < rows.len() && 0 <= j < rows.len() && i != j ==> (#[trigger] rows[i]).username
            != (#[trigger] rows[j]).username
    &&& forall|i: int, j: int|
        0 <= i < rows.len() && 0 <= j < rows.len() && i != j ==> (#[trigger] rows[i]).id != (
        #[trigger] rows[j]).id
}

/// What a lookup by username yields on `rows`: the row with that name, if any.
pub open spec fn found_by_username(rows: Seq<UserView>, name: Seq<char>, r: Option<UserView>) -> bool {
    match r {
        Some(u) => u.username == name && rows.contains(u),
        None => !has_username(rows, name),
    }
}

/// What a lookup by id yields on `rows`: the row with that id, if any.
pub open spec fn found_by_id(rows: Seq<UserView>, id: i64, r: Option<UserView>) -> bool {
    match r {
        Some(u) => u.id == id && rows.contains(u),
        None => !has_id(rows, id),
    }
}

/// The view of an optional user.
pub open spec fn opt_view(r: Option<User>) -> Option<UserView> {
    match r {
        Some(u) => Some(u@),
        None => None,
    }
}

/// Persistent users, keyed by unique username and by id. Ids are handed out
/// in increasing order from 1.
pub struct UserStore {
    rows: Vec<User>,
    next_id: i64,
}

impl View for UserStore {
    type V = Seq<UserView>;

    closed spec fn view(&self) -> Seq<UserView> {
        self.rows@.map_values(|u: User| u@)
    }
}

impl UserStore {
    pub open spec fn wf(&self) -> bool {
        rows_wf(self@, self.spec_next_id())
    }

    /// The id the next insertion will receive.
    pub closed spec fn spec_next_id(&self) -> i64 {
        self.next_id
    }

    pub fn new() -> (r: UserStore)
        ensures
            r.wf(),
            r@ == Seq::<UserView>::empty(),
            r.spec_next_id() == 1,
    {
        let r = UserStore { rows: Vec::new(), next_id: 1 };
        assert(r@ =~= Seq::<UserView>::empty());
        r
    }

    /// The number of users.
    pub fn len(&self) -> (r: usize)
        ensures
            r == self@.len(),
    {
        self.rows.len()
    }

    fn index_of_username(&self, name: &str) -> (r: Option<usize>)
        ensures
            r matches Some(i) ==> i < self@.len() && self@[i as int].username == name@,
            r is None ==> !has_username(self@, name@),
    {
        let target = name.to_owned();
        let mut i: usize = 0;
        while i < self.rows.len()
            invariant
                i <= self.rows@.len(),
                target@ == name@,
                self@ == self.rows@.map_values(|u: User| u@),
                forall|k: int| 0 <= k < i ==> (#[trigger] self@[k]).username != name@,
            decreases self.rows@.len() - i,
        {
            if self.rows[i].username == target {
                return Some(i);
            }
            i = i + 1;
        }
        None
    }

    fn index_of_id(&self, id: i64) -> (r: Option<usize>)
        ensures
            r matches Some(i) ==> i < self@.len() && self@[i as int].id == id,
            r is None ==> !has_id(self@, id),
    {
        let mut i: usize = 0;
        while i < self.rows.len()
            invariant
                i <= self.rows@.len(),
                self@ == self.rows@.map_values(|u: User| u@),
                forall|k: int| 0 <= k < i ==> (#[trigger] self@[k]).id != id,
            decreases self.rows@.len() - i,
        {
            if self.rows[i].id == id {
                return Some(i);
            }
            i = i + 1;
        }
        None
    }

    /// Exact, case-sensitive lookup by username.
    pub fn find_by_username(&self, username: &str) -> (r: Option<User>)
        ensures
            found_by_username(self@, username@, opt_view(r)),
    {
        match self.index_of_username(username) {
            Some(i) => {
                let u = self.rows[i].duplicate();
                assert(self@[i as int] == u@);
                Some(u)
            },
            None => None,
        }
    }

    /// Lookup by id.
    pub fn find_by_id(&self, id: i64) -> (r: Option<User>)
        ensures
            found_by_id(self@, id, opt_view(r)),
    {
        match self.index_of_id(id) {
            Some(i) => {
                let u = self.rows[i].duplicate();
                assert(self@[i as int] == u@);
                Some(u)
            },
            None => None,
        }
    }

    /// Adds a user with the next id. Fails with `Conflict` exactly when the
    /// username is taken, and with `Store` when ids are exhausted; on failure
    /// nothing changes.
    pub fn insert(&mut self, username: &str, pw_hash: Vec<u8>) -> (r: Result<i64, AuthError>)
        requires
            old(self).wf(),
        ensures
            final(self).wf(),
            has_username(old(self)@, username@) <==> r == Err::<i64, AuthError>(AuthError::Conflict),
            !has_username(old(self)@, username@) && old(self).spec_next_id() == i64::MAX
                <==> r == Err::<i64, AuthError>(AuthError::Store),
            r matches Err(e) ==> e == AuthError::Conflict || e == AuthError::Store,
            r is Err ==> final(self)@ == old(self)@ && final(self).spec_next_id() == old(self).spec_next_id(),
            r matches Ok(id) ==> {
                &&& id == old(self).spec_next_id()
                &&& final(self)@ == old(self)@.push(
                    UserView { id, username: username@, pw_hash: pw_hash@ },
                )
                &&& final(self).spec_next_id() == id + 1
            },
    {
        if self.index_of_username(username).is_some() {
            return Err(AuthError::Conflict);
        }
        if self.next_id == i64::MAX {
            return Err(AuthError::Store);
        }
        let id = self.next_id;
        let u = User { id, username: username.to_string(), pw_hash };
        proof {
            vstd::string::to_string_from_display_ensures_for_str(username, u.username);
        }
        let ghost before = self@;
        self.rows.push(u);
        self.next_id = id + 1;
        assert(self@ =~= before.push(u@));
        Ok(id)
    }

    /// Replaces the password hash of the user with id `id`; false when there
    /// is no such user.
    pub fn set_password_hash(&mut self, id: i64, pw_hash: Vec<u8>) -> (r: bool)
        requires
            old(self).wf(),
        ensures
            final(self).wf(),
            final(self).spec_next_id() == old(self).spec_next_id(),
            r == has_id(old(self)@, id),
            !r ==> final(self)@ == old(self)@,
            r ==> exists|i: int|
                0 <= i < old(self)@.len() && old(self)@[i].id == id && final(self)@ == old(self)@.update(
                    i,
                    UserView { id, username: old(self)@[i].username, pw_hash: pw_hash@ },
                ),
    {
        match self.index_of_id(id) {
            Some(i) => {
                let ghost before = self@;
                let username = self.rows[i].username.clone();
                self.rows.set(i, User { id, username, pw_hash });
                assert(self@ =~= before.update(
                    i as int,
                    UserView { id, username: before[i as int].username, pw_hash: pw_hash@ },
                ));
                true
            },
            None => false,
        }
    }
}

} // verus!
