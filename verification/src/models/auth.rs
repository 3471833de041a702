//! Payloads of the authentication endpoints and the token's claims.

use crate::models::user::{User, UserResponse, UserResponseView};
use vstd::prelude::*;
use vstd::string::*;

verus! {

/// Credentials presented at login.
#[derive(Debug, Clone, PartialEq, Eq)]
pub struct LoginRequest {
    pub email: String,
    pub password: String,
    /// The one-time code, where the account asks for one.
    pub totp_code: Option<String>,
}

/// Mathematical value of a [`LoginRequest`].
pub struct LoginRequestView {
    pub email: Seq<char>,
    pub password: Seq<char>,
    pub totp_code: Option<Seq<char>>,
}

impl View for LoginRequest {
    type V = LoginRequestView;

    open spec fn view(&self) -> LoginRequestView {
        LoginRequestView {
            email: self.email@,
            password: self.password@,
            totp_code: self.totp_code.deep_view(),
        }
    }
}

/// What a successful login hands to the client.
#[derive(Debug, Clone, PartialEq, Eq)]
pub struct LoginResponse {
    pub token: String,
    pub user: UserResponse,
}

/// Mathematical value of a [`LoginResponse`].
pub struct LoginResponseView {
    pub token: Seq<char>,
    pub user: UserResponseView,
}

impl View for LoginResponse {
    type V = LoginResponseView;

    open spec fn view(&self) -> LoginResponseView {
        LoginResponseView {
            token: self.token@,
            user: self.user@,
        }
    }
}

impl LoginResponse {
    /// What a login hands to the client: the token, and the user without its
    /// secrets.
    pub fn new(token: String, user: User) -> (response: LoginResponse)
        ensures
            response@ == (LoginResponseView { token: token@, user: user@.response() }),
    {
        LoginResponse { token, user: UserResponse::from(user) }
    }
}

/// What a visitor gives to open an account.
#[derive(Debug, Clone, PartialEq, Eq)]
pub struct RegisterRequest {
    pub email: String,
    pub password: String,
    pub company: Option<String>,
}

/// Mathematical value of a [`RegisterRequest`].
pub struct RegisterRequestView {
    pub email: Seq<char>,
    pub password: Seq<char>,
    pub company: Option<Seq<char>>,
}

impl View for RegisterRequest {
    type V = RegisterRequestView;

    open spec fn view(&self) -> RegisterRequestView {
        RegisterRequestView {
            email: self.email@,
            password: self.password@,
            company: self.company.deep_view(),
        }
    }
}

/// Payload of a signed token. It is rebuilt from the token on each request
/// and stored nowhere.
#[derive(Debug, Clone, PartialEq, Eq)]
pub struct Claims {
    /// The user's identifier.
    pub sub: u128,
    pub email: String,
    pub role: String,
    /// Expiry, in seconds since the epoch.
    pub exp: i64,
    /// Time of issue, in seconds since the epoch.
    pub iat: i64,
}

/// Mathematical value of a [`Claims`].
pub struct ClaimsView {
    pub sub: u128,
    pub email: Seq<char>,
    pub role: Seq<char>,
    pub exp: i64,
    pub iat: i64,
}

impl View for Claims {
    type V = ClaimsView;

    open spec fn view(&self) -> ClaimsView {
        ClaimsView {
            sub: self.sub,
            email: self.email@,
            role: self.role@,
            exp: self.exp,
            iat: self.iat,
        }
    }
}

impl DeepView for Claims {
    type V = ClaimsView;

    open spec fn deep_view(&self) -> ClaimsView {
        self@
    }
}

} // verus!
