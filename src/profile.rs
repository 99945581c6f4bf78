use vstd::prelude::*;

verus! {

/// A request to set a user's profile text.
pub struct ProfileMessage {
    pub id: i32,
    pub content: String,
}

/// A user as listed by the user API.
pub struct User {
    pub id: i32,
    pub username: String,
}

/// The user listing.
pub struct Users {
    pub users: Vec<User>,
}

/// The outcome of a profile update.
#[derive(Debug, Clone, Copy, PartialEq, Eq, Structural)]
pub enum ProfileUpdate {
    /// The user's profile text was changed.
    Updated { user_id: i32 },
    /// No user has that id.
    NotFound { user_id: i32 },
}

/// Decides the outcome of setting the profile text of user `id`, given how
/// many rows the update touched.
pub fn profile_update_outcome(id: i32, rows_affected: u64) -> (r: ProfileUpdate)
    ensures
        rows_affected > 0 ==> r == (ProfileUpdate::Updated { user_id: id }),
        rows_affected == 0 ==> r == (ProfileUpdate::NotFound { user_id: id }),
{
    if rows_affected > 0 {
        ProfileUpdate::Updated { user_id: id }
    } else {
        ProfileUpdate::NotFound { user_id: id }
    }
}

} // verus!
