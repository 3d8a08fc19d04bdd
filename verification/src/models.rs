use vstd::prelude::*;

verus! {

/// What a stored user is, as plain mathematical values.
pub ghost struct UserView {
    pub id: u128,
    pub name: Seq<char>,
    pub email: Seq<char>,
}

/// The sole persisted entity. `id` is the 128-bit value of the row's UUID.
#[derive(Debug, PartialEq, Eq)]
pub struct User {
    pub id: u128,
    pub name: String,
    pub email: String,
}

impl View for User {
    type V = UserView;

    open spec fn view(&self) -> UserView {
        UserView { id: self.id, name: self.name@, email: self.email@ }
    }
}

impl Clone for User {
    fn clone(&self) -> (copy: Self)
        ensures
            copy@ == self@,
    {
        User { id: self.id, name: self.name.clone(), email: self.email.clone() }
    }
}

/// Payload that creates a user: both fields are required.
#[derive(Debug, PartialEq, Eq)]
pub struct CreateUser {
    pub name: String,
    pub email: String,
}

/// Payload that updates a user: an absent field leaves the stored one as it is.
#[derive(Debug, PartialEq, Eq)]
pub struct UpdateUser {
    pub name: Option<String>,
    pub email: Option<String>,
}

/// Liveness probe response.
#[derive(Debug, PartialEq, Eq)]
pub struct HealthResponse {
    pub status: String,
}

/// The view of an optional text field.
pub open spec fn text_of(field: Option<String>) -> Option<Seq<char>> {
    match field {
        Some(s) => Some(s@),
        None => None,
    }
}

/// The views of a run of users, row by row.
pub open spec fn views_of(users: Seq<User>) -> Seq<UserView> {
    Seq::new(users.len(), |i: int| users[i]@)
}

} // verus!
