//! Users and their roles.

use crate::clock::Timestamp;
use crate::text::{all_lower_letters, lowercase, lowercase_text, text_is};
use vstd::prelude::*;
use vstd::string::*;

verus! {

/// What a user may do in the panel.
#[derive(Debug, Clone, Copy, PartialEq, Eq)]
pub enum UserRole {
    Admin,
    Reseller,
    User,
}

impl UserRole {
    /// The stored form of the role.
    pub open spec fn name(self) -> Seq<char> {
        match self {
            UserRole::Admin => "admin"@,
            UserRole::Reseller => "reseller"@,
            UserRole::User => "user"@,
        }
    }

    /// The role whose stored form is `text`, if there is one.
    pub open spec fn named(text: Seq<char>) -> Option<UserRole> {
        if text == "admin"@ {
            Some(UserRole::Admin)
        } else if text == "reseller"@ {
            Some(UserRole::Reseller)
        } else if text == "user"@ {
            Some(UserRole::User)
        } else {
            None
        }
    }

    /// The role that a stored text stands for: the one it names once
    /// lower-cased, and `User` where it names none.
    pub open spec fn of_stored(text: Seq<char>) -> UserRole {
        match UserRole::named(lowercase_text(text)) {
            Some(role) => role,
            None => UserRole::User,
        }
    }

    /// Every stored form is made of lowercase letters and names its role.
    pub proof fn lemma_names(self)
        ensures
            all_lower_letters(self.name()),
            UserRole::named(self.name()) == Some(self),
    {
        reveal_strlit("admin");
        reveal_strlit("reseller");
        reveal_strlit("user");
        assert("admin"@.len() == 5 && "admin"@[0] == 'a' && "admin"@[2] == 'm');
        assert("reseller"@.len() == 8 && "reseller"@[0] == 'r' && "reseller"@[2] == 's');
        assert("user"@.len() == 4 && "user"@[0] == 'u' && "user"@[2] == 'e');
    }

    /// The stored form of the role: its name in lowercase.
    pub fn as_str(&self) -> (name: &'static str)
        ensures
            name@ == self.name(),
    {
        match self {
            UserRole::Admin => "admin",
            UserRole::Reseller => "reseller",
            UserRole::User => "user",
        }
    }

    /// Reads a role from text, ignoring case. A text that names no role is
    /// refused with a message that quotes it. The stored form of a role reads
    /// back as that role.
    pub fn from_str(s: &str) -> (parsed: Result<UserRole, String>)
        ensures
            match UserRole::named(lowercase_text(s@)) {
                Some(role) => parsed == Ok::<UserRole, String>(role),
                None => parsed is Err && parsed->Err_0@ == "Invalid user role: "@ + s@,
            },
            forall|role: UserRole| s@ == role.name() ==> parsed == Ok::<UserRole, String>(role),
    {
        proof {
            assert forall|role: UserRole| s@ == role.name() implies all_lower_letters(s@)
                && UserRole::named(s@) == Some(role) by {
                role.lemma_names();
            }
        }
        let lower = lowercase(s);
        if text_is(lower.as_str(), "admin") {
            Ok(UserRole::Admin)
        } else if text_is(lower.as_str(), "reseller") {
            Ok(UserRole::Reseller)
        } else if text_is(lower.as_str(), "user") {
            Ok(UserRole::User)
        } else {
            Err(String::from_str("Invalid user role: ").concat(s))
        }
    }
}

impl std::str::FromStr for UserRole {
    type Err = String;

    fn from_str(s: &str) -> (parsed: Result<UserRole, String>)
        ensures
            match UserRole::named(lowercase_text(s@)) {
                Some(found) => parsed == Ok::<UserRole, String>(found),
                None => parsed is Err && parsed->Err_0@ == "Invalid user role: "@ + s@,
            },
            forall|legal: UserRole| s@ == legal.name() ==> parsed == Ok::<UserRole, String>(legal),
    {
        UserRole::from_str(s)
    }
}

/// A user of the panel, as stored.
#[derive(Debug, Clone, PartialEq, Eq)]
pub struct User {
    pub id: u128,
    pub email: String,
    pub password_hash: String,
    pub role: String,
    pub company: Option<String>,
    pub timezone: Option<String>,
    pub avatar_url: Option<String>,
    pub mfa_enabled: bool,
    pub mfa_secret: Option<String>,
    pub created_at: Timestamp,
    pub updated_at: Timestamp,
}

/// Mathematical value of a [`User`].
pub struct UserView {
    pub id: u128,
    pub email: Seq<char>,
    pub password_hash: Seq<char>,
    pub role: Seq<char>,
    pub company: Option<Seq<char>>,
    pub timezone: Option<Seq<char>>,
    pub avatar_url: Option<Seq<char>>,
    pub mfa_enabled: bool,
    pub mfa_secret: Option<Seq<char>>,
    pub created_at: Timestamp,
    pub updated_at: Timestamp,
}

impl View for User {
    type V = UserView;

    open spec fn view(&self) -> UserView {
        UserView {
            id: self.id,
            email: self.email@,
            password_hash: self.password_hash@,
            role: self.role@,
            company: self.company.deep_view(),
            timezone: self.timezone.deep_view(),
            avatar_url: self.avatar_url.deep_view(),
            mfa_enabled: self.mfa_enabled,
            mfa_secret: self.mfa_secret.deep_view(),
            created_at: self.created_at,
            updated_at: self.updated_at,
        }
    }
}

impl DeepView for User {
    type V = UserView;

    open spec fn deep_view(&self) -> UserView {
        self@
    }
}

impl User {
    /// The user's role; a stored text that names no role counts as `User`.
    pub fn get_role(&self) -> (role: UserRole)
        ensures
            role == UserRole::of_stored(self.role@),
            forall|r: UserRole| self.role@ == r.name() ==> role == r,
    {
        match UserRole::from_str(self.role.as_str()) {
            Ok(role) => role,
            Err(_) => UserRole::User,
        }
    }
}

/// What an administrator gives to create a user.
#[derive(Debug, Clone, PartialEq, Eq)]
pub struct CreateUser {
    pub email: String,
    pub password: String,
    pub role: Option<UserRole>,
    pub company: Option<String>,
}

/// Mathematical value of a [`CreateUser`].
pub struct CreateUserView {
    pub email: Seq<char>,
    pub password: Seq<char>,
    pub role: Option<UserRole>,
    pub company: Option<Seq<char>>,
}

impl View for CreateUser {
    type V = CreateUserView;

    open spec fn view(&self) -> CreateUserView {
        CreateUserView {
            email: self.email@,
            password: self.password@,
            role: self.role,
            company: self.company.deep_view(),
        }
    }
}

/// The profile fields that an update may replace; `None` keeps a field.
#[derive(Debug, Clone, PartialEq, Eq)]
pub struct UpdateUser {
    pub email: Option<String>,
    pub company: Option<String>,
    pub timezone: Option<String>,
    pub avatar_url: Option<String>,
}

/// Mathematical value of an [`UpdateUser`].
pub struct UpdateUserView {
    pub email: Option<Seq<char>>,
    pub company: Option<Seq<char>>,
    pub timezone: Option<Seq<char>>,
    pub avatar_url: Option<Seq<char>>,
}

impl View for UpdateUser {
    type V = UpdateUserView;

    open spec fn view(&self) -> UpdateUserView {
        UpdateUserView {
            email: self.email.deep_view(),
            company: self.company.deep_view(),
            timezone: self.timezone.deep_view(),
            avatar_url: self.avatar_url.deep_view(),
        }
    }
}

/// A user as shown to clients: the record without its secrets.
#[derive(Debug, Clone, PartialEq, Eq)]
pub struct UserResponse {
    pub id: u128,
    pub email: String,
    pub role: String,
    pub company: Option<String>,
    pub timezone: Option<String>,
    pub avatar_url: Option<String>,
    pub mfa_enabled: bool,
    pub created_at: Timestamp,
}

/// Mathematical value of a [`UserResponse`].
pub struct UserResponseView {
    pub id: u128,
    pub email: Seq<char>,
    pub role: Seq<char>,
    pub company: Option<Seq<char>>,
    pub timezone: Option<Seq<char>>,
    pub avatar_url: Option<Seq<char>>,
    pub mfa_enabled: bool,
    pub created_at: Timestamp,
}

impl View for UserResponse {
    type V = UserResponseView;

    open spec fn view(&self) -> UserResponseView {
        UserResponseView {
            id: self.id,
            email: self.email@,
            role: self.role@,
            company: self.company.deep_view(),
            timezone: self.timezone.deep_view(),
            avatar_url: self.avatar_url.deep_view(),
            mfa_enabled: self.mfa_enabled,
            created_at: self.created_at,
        }
    }
}

impl DeepView for UserResponse {
    type V = UserResponseView;

    open spec fn deep_view(&self) -> UserResponseView {
        self@
    }
}

impl UserView {
    /// The user as shown to clients: without password hash, MFA secret and
    /// time of last change.
    pub open spec fn response(self) -> UserResponseView {
        UserResponseView {
            id: self.id,
            email: self.email,
            role: self.role,
            company: self.company,
            timezone: self.timezone,
            avatar_url: self.avatar_url,
            mfa_enabled: self.mfa_enabled,
            created_at: self.created_at,
        }
    }
}

impl From<User> for UserResponse {
    fn from(user: User) -> (response: UserResponse) {
        UserResponse {
            id: user.id,
            email: user.email,
            role: user.role,
            company: user.company,
            timezone: user.timezone,
            avatar_url: user.avatar_url,
            mfa_enabled: user.mfa_enabled,
            created_at: user.created_at,
        }
    }
}

impl vstd::std_specs::convert::FromSpecImpl<User> for UserResponse {
    open spec fn obeys_from_spec() -> bool {
        true
    }

    open spec fn from_spec(user: User) -> UserResponse {
        UserResponse {
            id: user.id,
            email: user.email,
            role: user.role,
            company: user.company,
            timezone: user.timezone,
            avatar_url: user.avatar_url,
            mfa_enabled: user.mfa_enabled,
            created_at: user.created_at,
        }
    }
}

/// Converting a user to its client-facing form keeps every shown field and
/// drops the rest.
pub proof fn lemma_response_of_user(user: User)
    ensures
        <UserResponse as vstd::std_specs::convert::FromSpec<User>>::from_spec(user)@
            == user@.response(),
{
}

} // verus!
