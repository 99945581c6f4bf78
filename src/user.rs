use vstd::prelude::*;

verus! {

/// The mathematical value of a [`User`].
pub struct UserView {
    pub id: i64,
    pub username: Seq<char>,
    pub pw_hash: Seq<u8>,
}

/// A registered user: its id, unique username, and the bytes of its encoded
/// password hash.
#[derive(Debug, Clone)]
pub struct User {
    pub id: i64,
    pub username: String,
    pub pw_hash: Vec<u8>,
}

impl View for User {
    type V = UserView;

    open spec fn view(&self) -> UserView {
        UserView { id: self.id, username: self.username@, pw_hash: self.pw_hash@ }
    }
}

/// Copies a byte vector, keeping its contents.
pub fn copy_bytes(b: &Vec<u8>) -> (r: Vec<u8>)
    ensures
        r@ == b@,
{
    let r = b.clone();
    assert(r@ =~= b@);
    r
}

/// Compares two byte sequences.
pub fn bytes_equal(a: &[u8], b: &[u8]) -> (r: bool)
    ensures
        r == (a@ == b@),
{
    if a.len() != b.len() {
        return false;
    }
    let mut i: usize = 0;
    while i < a.len()
        invariant
            a@.len() == b@.len(),
            i <= a@.len(),
            forall|k: int| 0 <= k < i ==> a@[k] == b@[k],
        decreases a@.len() - i,
    {
        if a[i] != b[i] {
            return false;
        }
        i = i + 1;
    }
    assert(a@ =~= b@);
    true
}

impl User {
    pub fn new(id: i64, username: String, pw_hash: Vec<u8>) -> (r: User)
        ensures
            r@ == (UserView { id, username: username@, pw_hash: pw_hash@ }),
    {
        User { id, username, pw_hash }
    }

    /// The user's id, under which sessions refer to it.
    pub fn id(&self) -> (r: i64)
        ensures
            r == self.id,
    {
        self.id
    }

    /// The material a session is bound to: the bytes of the password hash.
    pub fn session_auth_hash(&self) -> (r: &[u8])
        ensures
            r@ == self.pw_hash@,
    {
        self.pw_hash.as_slice()
    }

    /// A copy of this user with the same view.
    pub fn duplicate(&self) -> (r: User)
        ensures
            r@ == self@,
    {
        User { id: self.id, username: self.username.clone(), pw_hash: copy_bytes(&self.pw_hash) }
    }
}

/// A username and plaintext password submitted by a client.
#[derive(Clone)]
pub struct Credentials {
    pub username: String,
    pub password: String,
}

impl Credentials {
    /// Whether both the username and the password are non-empty.
    pub open spec fn well_formed(&self) -> bool {
        self.username@.len() > 0 && self.password@.len() > 0
    }

    /// Rejects credentials with an empty username or password.
    pub fn validate_credentials(&self) -> (r: Result<(), crate::error::AuthError>)
        ensures
            r is Ok <==> self.well_formed(),
            r matches Err(e) ==> e == crate::error::AuthError::Validation,
    {
        if self.username.as_str().is_empty() || self.password.as_str().is_empty() {
            Err(crate::error::AuthError::Validation)
        } else {
            Ok(())
        }
    }

    pub fn new(username: String, password: String) -> (r: Credentials)
        ensures
            r.username@ == username@,
            r.password@ == password@,
    {
        Credentials { username, password }
    }
}

} // verus!
