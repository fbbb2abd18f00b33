//! The two data shapes of the service. Both are plain values that live for
//! one request.

use vstd::prelude::*;

verus! {

/// The body of a user-creation request, once it has been deserialized.
///
/// The user name is not validated: any text is accepted, the empty one too.
#[derive(Debug, PartialEq, Eq)]
pub struct CreateUser {
    pub username: String,
}

/// A user as the service reports it.
#[derive(Debug, PartialEq, Eq)]
pub struct User {
    pub id: u64,
    pub username: String,
}

/// What a [`CreateUser`] holds.
pub ghost struct CreateUserView {
    pub username: Seq<char>,
}

/// What a [`User`] holds.
pub ghost struct UserView {
    pub id: u64,
    pub username: Seq<char>,
}

impl View for CreateUser {
    type V = CreateUserView;

    open spec fn view(&self) -> CreateUserView {
        CreateUserView { username: self.username@ }
    }
}

impl View for User {
    type V = UserView;

    open spec fn view(&self) -> UserView {
        UserView { id: self.id, username: self.username@ }
    }
}

/// What an optional payload holds: `None` stands for a body that did not
/// deserialize.
pub open spec fn payload_view(payload: Option<CreateUser>) -> Option<CreateUserView> {
    match payload {
        Some(payload) => Some(payload@),
        None => None,
    }
}

/// The identifier that every created user gets. The service keeps no
/// counter and no store, so it is the same for all of them.
pub const FIRST_USER_ID: u64 = 1;

} // verus!
