//! The two handlers. Both are total and keep no state.

use vstd::prelude::*;
use crate::model::{CreateUser, CreateUserView, User, UserView, FIRST_USER_ID};
use crate::response::StatusCode;

verus! {

/// The text of the greeting.
pub open spec fn greeting() -> Seq<char> {
    "Hello, World!"@
}

/// The greeting has thirteen characters, from `H` to `!`.
pub proof fn lemma_greeting_text()
    ensures
        greeting() == seq![
            'H', 'e', 'l', 'l', 'o', ',', ' ', 'W', 'o', 'r', 'l', 'd', '!',
        ],
{
    reveal_strlit("Hello, World!");
    assert(greeting() =~= seq![
        'H', 'e', 'l', 'l', 'o', ',', ' ', 'W', 'o', 'r', 'l', 'd', '!',
    ]);
}

/// The handler of `GET /`: the greeting, whatever the request holds.
pub fn root() -> (text: &'static str)
    ensures
        text@ == greeting(),
        text@ == seq!['H', 'e', 'l', 'l', 'o', ',', ' ', 'W', 'o', 'r', 'l', 'd', '!'],
{
    proof {
        lemma_greeting_text();
    }
    "Hello, World!"
}

/// The user that answers a user-creation request: the first identifier,
/// and the user name as it was sent.
pub open spec fn created_user(payload: CreateUserView) -> UserView {
    UserView { id: FIRST_USER_ID, username: payload.username }
}

/// The handler of `POST /users`: the status `Created`, and a user with the
/// identifier 1 and the user name of the request, unchanged.
pub fn create_user(payload: CreateUser) -> (created: (StatusCode, User))
    ensures
        created.0 == StatusCode::Created,
        created.1@ == created_user(payload@),
        created.1.id == 1,
        created.1.username@ == payload.username@,
{
    let user = User { id: FIRST_USER_ID, username: payload.username };
    (StatusCode::Created, user)
}

} // verus!
