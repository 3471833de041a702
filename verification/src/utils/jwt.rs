//! Tokens: which claims a token carries, and what a signing or a decoding
//! amounts to. Signing and decoding themselves are the caller's part.

use crate::clock::{now, CLOCK_SPAN};
use crate::config::Config;
use crate::models::auth::{Claims, ClaimsView};
use crate::models::user::{User, UserView};
use crate::utils::errors::{AppError, AppErrorView};
use vstd::prelude::*;
use vstd::string::*;

verus! {

/// The claims of a token issued to `user` at second `issued_at` for
/// `lifetime` seconds.
pub open spec fn claims_of(user: UserView, issued_at: i64, lifetime: i64) -> ClaimsView {
    ClaimsView {
        sub: user.id,
        email: user.email,
        role: user.role,
        exp: (issued_at + lifetime) as i64,
        iat: issued_at,
    }
}

/// What a signing amounts to: the token, or an internal error that quotes
/// the signer's complaint.
pub open spec fn signing_outcome(signed: Result<String, String>) -> Result<
    Seq<char>,
    AppErrorView,
> {
    match signed {
        Ok(token) => Ok(token@),
        Err(detail) => Err(AppErrorView::InternalError("Failed to generate token: "@ + detail@)),
    }
}

/// What a decoding amounts to: the claims, or a refusal that quotes the
/// decoder's complaint.
pub open spec fn decoding_outcome(decoded: Result<Claims, String>) -> Result<
    ClaimsView,
    AppErrorView,
> {
    match decoded {
        Ok(claims) => Ok(claims@),
        Err(detail) => Err(AppErrorView::Unauthorized("Invalid token: "@ + detail@)),
    }
}

/// The claims of a token issued to `user` at second `issued_at` for
/// `lifetime` seconds: subject, email and role of the user, time of issue,
/// and the expiry that many seconds later.
pub fn claims_at(user: &User, issued_at: i64, lifetime: i64) -> (claims: Claims)
    requires
        i64::MIN <= issued_at + lifetime <= i64::MAX,
    ensures
        claims@ == claims_of(user@, issued_at, lifetime),
{
    Claims {
        sub: user.id,
        email: user.email.clone(),
        role: user.role.clone(),
        exp: issued_at + lifetime,
        iat: issued_at,
    }
}

/// The claims of a token issued to `user` now, valid for the configured
/// lifetime. They are what has to be signed with the configured secret.
pub fn generate_token(user: &User, config: &Config) -> (claims: Claims)
    requires
        config.lifetime_fits(),
    ensures
        -CLOCK_SPAN <= claims.iat <= CLOCK_SPAN,
        claims@ == claims_of(user@, claims.iat, config.jwt_expiration),
{
    let issued = now();
    claims_at(user, issued.secs, config.jwt_expiration)
}

/// The result of a token's signing. A failure of the signer is an internal
/// error.
pub fn token_signed(signed: Result<String, String>) -> (token: Result<String, AppError>)
    ensures
        match signing_outcome(signed) {
            Ok(text) => token is Ok && token->Ok_0@ == text,
            Err(error) => token is Err && token->Err_0@ == error,
        },
{
    match signed {
        Ok(token) => Ok(token),
        Err(detail) => Err(
            AppError::InternalError(
                String::from_str("Failed to generate token: ").concat(detail.as_str()),
            ),
        ),
    }
}

/// The result of a token's decoding and validation: its claims, or
/// `Unauthorized` where the token was refused.
pub fn verify_token(decoded: Result<Claims, String>) -> (claims: Result<Claims, AppError>)
    ensures
        match decoding_outcome(decoded) {
            Ok(view) => claims is Ok && claims->Ok_0@ == view,
            Err(error) => claims is Err && claims->Err_0@ == error,
        },
{
    match decoded {
        Ok(claims) => Ok(claims),
        Err(detail) => Err(
            AppError::Unauthorized(
                String::from_str("Invalid token: ").concat(detail.as_str()),
            ),
        ),
    }
}

} // verus!
