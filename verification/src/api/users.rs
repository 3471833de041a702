//! Users as the HTTP layer shows them.

use crate::models::user::{User, UserResponse, UserResponseView, UserView};
use vstd::prelude::*;

verus! {

/// The client-facing forms of a list of users, in the list's order.
pub open spec fn responses(users: Seq<UserView>) -> Seq<UserResponseView> {
    users.map_values(|user: UserView| user.response())
}

fn copy_text(text: &Option<String>) -> (copy: Option<String>)
    ensures
        copy.deep_view() == text.deep_view(),
{
    match text {
        Some(text) => Some(text.clone()),
        None => None,
    }
}

fn response_of(user: &User) -> (response: UserResponse)
    ensures
        response@ == user@.response(),
{
    UserResponse {
        id: user.id,
        email: user.email.clone(),
        role: user.role.clone(),
        company: copy_text(&user.company),
        timezone: copy_text(&user.timezone),
        avatar_url: copy_text(&user.avatar_url),
        mfa_enabled: user.mfa_enabled,
        created_at: user.created_at,
    }
}

/// The users that a listing found, each in its client-facing form: as many
/// as were found, in the same order, none with its password hash or its
/// second-factor secret.
pub fn list_users(users: Vec<User>) -> (shown: Vec<UserResponse>)
    ensures
        shown.deep_view() == responses(users.deep_view()),
{
    let mut shown: Vec<UserResponse> = Vec::new();
    let mut i: usize = 0;
    while i < users.len()
        invariant
            i <= users.len(),
            shown.len() == i,
            forall|k: int| 0 <= k < i ==> (#[trigger] shown[k])@ == users[k]@.response(),
        decreases users.len() - i,
    {
        shown.push(response_of(&users[i]));
        i = i + 1;
    }
    assert(shown.deep_view() =~= responses(users.deep_view())) by {
        assert(shown.deep_view().len() == users.deep_view().len());
        assert forall|k: int| 0 <= k < shown.len() implies shown.deep_view()[k] == responses(
            users.deep_view(),
        )[k] by {
            assert(shown.deep_view()[k] == shown[k]@);
            assert(users.deep_view()[k] == users[k]@);
        }
    }
    shown
}

} // verus!
