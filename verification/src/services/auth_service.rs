//! Login and registration.

use crate::clock::{clock_reading, now, Timestamp};
use crate::config::Config;
use crate::ident::fresh;
use crate::models::auth::{LoginRequest, LoginRequestView};
use crate::models::user::{User, UserView};
use crate::services::flow::{unexpected, unexpected_event, Action, ActionView, Event, EventView};
use crate::services::user_service::{signup, signup_step, Signup, SignupState};
use crate::utils::errors::{outcome_view, AppError, AppErrorView};
use crate::utils::jwt::{claims_at, claims_of};
use vstd::prelude::*;
use vstd::string::*;

verus! {

/// Digits of a one-time code.
pub const TOTP_DIGITS: usize = 6;

/// Time steps before and after the current one whose codes are accepted.
pub const TOTP_SKEW: u8 = 1;

/// Seconds in a time step.
pub const TOTP_STEP: u64 = 30;

/// Address recorded with a login attempt. The caller's own is not known to
/// the service.
pub open spec fn audit_address() -> Seq<char> {
    "0.0.0.0"@
}

/// `totp_rs::Algorithm`, the hash function of a code generator, with its
/// variants.
#[verifier::external_type_specification]
pub struct ExAlgorithm(totp_rs::Algorithm);

/// `totp_rs::TOTP`, a code generator, with its fields: algorithm, digits,
/// skew, step and secret are public there, and the contracts below speak of
/// them.
#[verifier::external_type_specification]
pub struct ExTotp(totp_rs::TOTP);

/// The bytes that a base32 text (RFC 4648 alphabet, unpadded) writes, or
/// `None` where the text is no such encoding.
pub uninterp spec fn base32_secret(encoded: Seq<char>) -> Option<Seq<u8>>;

/// Decodes a shared secret through `totp_rs::Secret::to_bytes`.
///
/// Trusted: the outcome is a function of the text alone.
#[verifier::external_body]
fn decode_secret(secret: &str) -> (bytes: Option<Vec<u8>>)
    ensures
        match bytes {
            Some(decoded) => base32_secret(secret@) == Some(decoded@),
            None => base32_secret(secret@) is None,
        },
{
    totp_rs::Secret::Encoded(secret.to_string()).to_bytes().ok()
}

/// Whether a generator of SHA-1 codes with these settings and this secret
/// accepts `code` at second `time` of the epoch: whether the code is the one
/// of the time step that holds `time`, or of one of the `skew` steps before
/// or after it.
pub uninterp spec fn sha1_code_accepted(
    digits: usize,
    skew: u8,
    step: u64,
    secret: Seq<u8>,
    code: Seq<char>,
    time: u64,
) -> bool;

/// Builds a code generator through `totp_rs::TOTP::new`.
///
/// Trusted: the call succeeds exactly where the number of digits lies
/// between 6 and 8 and the secret has at least 128 bits, and the generator
/// then holds the settings and the secret as given.
#[verifier::external_body]
fn totp_new(
    algorithm: totp_rs::Algorithm,
    digits: usize,
    skew: u8,
    step: u64,
    secret: Vec<u8>,
) -> (built: Option<totp_rs::TOTP>)
    ensures
        built is Some <==> (6 <= digits <= 8 && secret@.len() >= 16),
        built matches Some(totp) ==> totp.algorithm == algorithm && totp.digits == digits
            && totp.skew == skew && totp.step == step && totp.secret@ == secret@,
{
    totp_rs::TOTP::new(algorithm, digits, skew, step, secret).ok()
}

/// Checks a code against the system's clock through
/// `totp_rs::TOTP::check_current`; `None` where the clock cannot be read.
///
/// Trusted: the verdict is the one that the generator gives at some second
/// of the epoch; which second is the clock's affair.
///
/// The generator must be of the panel's kind. `totp_rs` raises ten to the
/// number of digits in 32 bits, divides the clock's reading by the step, and
/// subtracts the skew from the quotient: with 6 to 8 digits, a step of
/// [`TOTP_STEP`] seconds and a skew of [`TOTP_SKEW`] none of these goes wrong
/// on a clock that stands at least one step past the epoch. On a clock that
/// stands within the first step the subtraction underflows, which no
/// condition on the arguments can exclude.
#[verifier::external_body]
fn totp_check_current(totp: &totp_rs::TOTP, code: &str) -> (matches: Option<bool>)
    requires
        totp.algorithm == totp_rs::Algorithm::SHA1,
        6 <= totp.digits <= 8,
        totp.skew == TOTP_SKEW,
        totp.step == TOTP_STEP,
    ensures
        matches matches Some(accepted) ==> exists|time: u64|
            accepted == #[trigger] sha1_code_accepted(
                totp.digits,
                totp.skew,
                totp.step,
                totp.secret@,
                code@,
                time,
            ),
{
    totp.check_current(code).ok()
}

/// The error of a one-time code that does not verify.
pub open spec fn invalid_code() -> AppErrorView {
    AppErrorView::Unauthorized("Invalid TOTP code"@)
}

/// What a check against the clock amounts to: its verdict, or a refusal
/// where the clock could not be read.
pub open spec fn checked_code(matches: Option<bool>) -> Result<bool, AppErrorView> {
    match matches {
        Some(verdict) => Ok(verdict),
        None => Err(invalid_code()),
    }
}

/// Whether the panel's generator for the secret `bytes` accepts `code` at
/// second `time`: SHA-1, [`TOTP_DIGITS`] digits, steps of [`TOTP_STEP`]
/// seconds, [`TOTP_SKEW`] step of tolerance on either side.
pub open spec fn code_accepted(bytes: Seq<u8>, code: Seq<char>, time: u64) -> bool {
    sha1_code_accepted(TOTP_DIGITS, TOTP_SKEW, TOTP_STEP, bytes, code, time)
}

/// Whether `verdict` can be the outcome of verifying `code` against the
/// encoded secret `secret`: a secret that is no base32 text, or one of fewer
/// than 128 bits, is an internal error; with any other secret the verdict is
/// the generator's at some second, or a refusal where the clock cannot be
/// read.
pub open spec fn possible_verdict(
    secret: Seq<char>,
    code: Seq<char>,
    verdict: Result<bool, AppErrorView>,
) -> bool {
    match base32_secret(secret) {
        None => verdict == Err::<bool, AppErrorView>(
            AppErrorView::InternalError("Invalid TOTP secret"@),
        ),
        Some(bytes) => if bytes.len() < 16 {
            verdict == Err::<bool, AppErrorView>(
                AppErrorView::InternalError("Failed to create TOTP"@),
            )
        } else {
            ||| verdict == Err::<bool, AppErrorView>(invalid_code())
            ||| exists|time: u64|
                verdict == Ok::<bool, AppErrorView>(#[trigger] code_accepted(bytes, code, time))
        },
    }
}

/// The verdict of a check of a code against the clock.
pub fn code_checked(matches: Option<bool>) -> (verdict: Result<bool, AppError>)
    ensures
        outcome_view(verdict) == checked_code(matches),
{
    match matches {
        Some(verdict) => Ok(verdict),
        None => Err(AppError::Unauthorized("Invalid TOTP code".to_owned())),
    }
}

/// Verifies a one-time code against a base32-encoded shared secret at the
/// current time: SHA-1, [`TOTP_DIGITS`] digits, steps of [`TOTP_STEP`]
/// seconds, and [`TOTP_SKEW`] step of tolerance on either side.
pub fn verify_totp(code: &str, secret: &str) -> (verdict: Result<bool, AppError>)
    ensures
        possible_verdict(secret@, code@, outcome_view(verdict)),
{
    let bytes = match decode_secret(secret) {
        Some(bytes) => bytes,
        None => {
            return Err(AppError::InternalError("Invalid TOTP secret".to_owned()));
        },
    };
    let totp = match totp_new(totp_rs::Algorithm::SHA1, TOTP_DIGITS, TOTP_SKEW, TOTP_STEP, bytes) {
        Some(totp) => totp,
        None => {
            return Err(AppError::InternalError("Failed to create TOTP".to_owned()));
        },
    };
    let ghost bytes = totp.secret@;
    let matches = totp_check_current(&totp, code);
    let verdict = code_checked(matches);
    proof {
        match matches {
            Some(accepted) => {
                let time = choose|time: u64|
                    accepted == #[trigger] sha1_code_accepted(
                        totp.digits,
                        totp.skew,
                        totp.step,
                        totp.secret@,
                        code@,
                        time,
                    );
                assert(outcome_view(verdict) == Ok::<bool, AppErrorView>(
                    code_accepted(bytes, code@, time),
                ));
            },
            None => {},
        }
    }
    verdict
}

/// The error of a login with an unknown email address or a wrong password.
/// The two are told apart nowhere.
pub open spec fn invalid_credentials() -> AppErrorView {
    AppErrorView::Unauthorized("Invalid credentials"@)
}

fn bad_credentials() -> (error: AppError)
    ensures
        error@ == invalid_credentials(),
{
    AppError::Unauthorized("Invalid credentials".to_owned())
}

/// Whether the second factor lets a login pass; `verdict` is the outcome of
/// verifying the code presented.
///
/// An account without a second factor passes. One with a second factor needs
/// a code, and a secret to hold it against, and the code must verify.
pub open spec fn second_factor(
    user: UserView,
    code: Option<Seq<char>>,
    verdict: Result<bool, AppErrorView>,
) -> Result<(), AppErrorView> {
    if !user.mfa_enabled {
        Ok(())
    } else {
        match code {
            None => Err(AppErrorView::Unauthorized("TOTP code required"@)),
            Some(_) => match user.mfa_secret {
                None => Err(AppErrorView::Unauthorized("MFA secret not found"@)),
                Some(_) => match verdict {
                    Err(error) => Err(error),
                    Ok(false) => Err(invalid_code()),
                    Ok(true) => Ok(()),
                },
            },
        }
    }
}

/// Whether the second factor lets a login pass, given the outcome of
/// verifying the code presented.
pub fn check_second_factor(
    user: &User,
    code: &Option<String>,
    verdict: Result<bool, AppError>,
) -> (passed: Result<(), AppError>)
    ensures
        outcome_view(passed) == second_factor(user@, code.deep_view(), outcome_view(verdict)),
{
    if !user.mfa_enabled {
        return Ok(());
    }
    if code.is_none() {
        return Err(AppError::Unauthorized("TOTP code required".to_owned()));
    }
    if user.mfa_secret.is_none() {
        return Err(AppError::Unauthorized("MFA secret not found".to_owned()));
    }
    match verdict {
        Err(error) => Err(error),
        Ok(false) => Err(AppError::Unauthorized("Invalid TOTP code".to_owned())),
        Ok(true) => Ok(()),
    }
}

/// Where a login stands.
#[derive(Debug, PartialEq, Eq)]
pub enum LoginState {
    /// Not begun.
    New { payload: LoginRequest },
    /// The user is being looked up by email address.
    AwaitUser { payload: LoginRequest },
    /// The password is being checked against the hash of `user`.
    AwaitPassword { payload: LoginRequest, user: User },
    /// The attempt is being recorded.
    AwaitAudit { user: User },
    /// The token is being signed.
    AwaitToken { user: User },
    /// Over: the signed token and the user, or the refusal.
    Done(Result<(String, User), AppError>),
}

/// Mathematical value of a [`LoginState`].
pub enum LoginStateView {
    New { payload: LoginRequestView },
    AwaitUser { payload: LoginRequestView },
    AwaitPassword { payload: LoginRequestView, user: UserView },
    AwaitAudit { user: UserView },
    AwaitToken { user: UserView },
    Done(Result<(Seq<char>, UserView), AppErrorView>),
}

impl View for LoginState {
    type V = LoginStateView;

    open spec fn view(&self) -> LoginStateView {
        match self {
            LoginState::New { payload } => LoginStateView::New { payload: payload@ },
            LoginState::AwaitUser { payload } => LoginStateView::AwaitUser { payload: payload@ },
            LoginState::AwaitPassword { payload, user } => LoginStateView::AwaitPassword {
                payload: payload@,
                user: user@,
            },
            LoginState::AwaitAudit { user } => LoginStateView::AwaitAudit { user: user@ },
            LoginState::AwaitToken { user } => LoginStateView::AwaitToken { user: user@ },
            LoginState::Done(x) => LoginStateView::Done(
                match x {
                    Ok(value) => Ok((value.0@, value.1@)),
                    Err(error) => Err(error@),
                },
            ),
        }
    }
}

/// One step of a login; `lifetime` is the configured lifetime of a token,
/// `now` the clock's reading and `verdict` the outcome of verifying the
/// one-time code, each used on the step that needs it.
///
/// The user is looked up by email address; an unknown address and a wrong
/// password are refused alike. An account with a second factor must pass
/// it. The attempt is then recorded as a success, and a token is issued that
/// names the user and expires `lifetime` seconds after issue.
pub open spec fn login_step(
    state: LoginStateView,
    event: EventView,
    lifetime: i64,
    now: Timestamp,
    verdict: Result<bool, AppErrorView>,
) -> (LoginStateView, ActionView) {
    match (state, event) {
        (LoginStateView::Done(result), _) => (LoginStateView::Done(result), ActionView::Finish),
        (_, EventView::Failed(error)) => (LoginStateView::Done(Err(error)), ActionView::Finish),
        (LoginStateView::New { payload }, EventView::Start) => (
            LoginStateView::AwaitUser { payload },
            ActionView::FindUserByEmail { email: payload.email },
        ),
        (LoginStateView::AwaitUser { payload }, EventView::UserFound(None)) => (
            LoginStateView::Done(Err(invalid_credentials())),
            ActionView::Finish,
        ),
        (LoginStateView::AwaitUser { payload }, EventView::UserFound(Some(user))) => (
            LoginStateView::AwaitPassword { payload, user },
            ActionView::VerifyPassword { password: payload.password, hash: user.password_hash },
        ),
        (LoginStateView::AwaitPassword { payload, user }, EventView::PasswordVerified(false)) => (
            LoginStateView::Done(Err(invalid_credentials())),
            ActionView::Finish,
        ),
        (LoginStateView::AwaitPassword { payload, user }, EventView::PasswordVerified(true)) => {
            match second_factor(user, payload.totp_code, verdict) {
                Err(error) => (LoginStateView::Done(Err(error)), ActionView::Finish),
                Ok(_) => (
                    LoginStateView::AwaitAudit { user },
                    ActionView::InsertLoginAttempt {
                        email: payload.email,
                        ip_address: audit_address(),
                        success: true,
                        attempted_at: now,
                    },
                ),
            }
        },
        (LoginStateView::AwaitAudit { user }, EventView::Executed { rows_affected }) => (
            LoginStateView::AwaitToken { user },
            ActionView::SignToken { claims: claims_of(user, now.secs, lifetime) },
        ),
        (LoginStateView::AwaitToken { user }, EventView::TokenSigned(token)) => (
            LoginStateView::Done(Ok((token, user))),
            ActionView::Finish,
        ),
        _ => (LoginStateView::Done(Err(unexpected_event())), ActionView::Finish),
    }
}

/// What the nondeterministic inputs of a login step are: a reading of the
/// clock, and, where the step verifies a one-time code, a verdict that is
/// possible for the user's secret.
pub open spec fn login_inputs(
    state: LoginStateView,
    event: EventView,
    now: Timestamp,
    verdict: Result<bool, AppErrorView>,
) -> bool {
    &&& clock_reading(now)
    &&& state matches LoginStateView::AwaitPassword { payload, user } ==> (event
        == EventView::PasswordVerified(true) && user.mfa_enabled && payload.totp_code is Some
        && user.mfa_secret is Some ==> possible_verdict(
        user.mfa_secret->0,
        payload.totp_code->0,
        verdict,
    ))
}

fn login_failed(error: AppError) -> (step: (LoginState, Action))
    ensures
        step.0@ == LoginStateView::Done(Err(error@)),
        step.1@ == ActionView::Finish,
{
    (LoginState::Done(Err(error)), Action::Finish)
}

/// One step of a login, with the clock's reading and the verdict on the
/// one-time code given. On the step that issues the token the expiry must
/// lie within the 64-bit range.
pub fn login_with(
    state: LoginState,
    event: Event,
    lifetime: i64,
    now: Timestamp,
    verdict: Result<bool, AppError>,
) -> (step: (LoginState, Action))
    requires
        state is AwaitAudit && event is Executed ==> i64::MIN <= now.secs + lifetime <= i64::MAX,
    ensures
        (step.0@, step.1@) == login_step(state@, event@, lifetime, now, outcome_view(verdict)),
{
    match state {
        LoginState::Done(result) => (LoginState::Done(result), Action::Finish),
        LoginState::New { payload } => match event {
            Event::Failed(error) => login_failed(error),
            Event::Start => {
                let email = payload.email.clone();
                (LoginState::AwaitUser { payload }, Action::FindUserByEmail { email })
            },
            _ => login_failed(unexpected()),
        },
        LoginState::AwaitUser { payload } => match event {
            Event::Failed(error) => login_failed(error),
            Event::UserFound(None) => login_failed(bad_credentials()),
            Event::UserFound(Some(user)) => {
                let password = payload.password.clone();
                let hash = user.password_hash.clone();
                (
                    LoginState::AwaitPassword { payload, user },
                    Action::VerifyPassword { password, hash },
                )
            },
            _ => login_failed(unexpected()),
        },
        LoginState::AwaitPassword { payload, user } => match event {
            Event::Failed(error) => login_failed(error),
            Event::PasswordVerified(false) => login_failed(bad_credentials()),
            Event::PasswordVerified(true) => {
                match check_second_factor(&user, &payload.totp_code, verdict) {
                    Err(error) => login_failed(error),
                    Ok(_) => (
                        LoginState::AwaitAudit { user },
                        Action::InsertLoginAttempt {
                            email: payload.email,
                            ip_address: "0.0.0.0".to_owned(),
                            success: true,
                            attempted_at: now,
                        },
                    ),
                }
            },
            _ => login_failed(unexpected()),
        },
        LoginState::AwaitAudit { user } => match event {
            Event::Failed(error) => login_failed(error),
            Event::Executed { rows_affected } => {
                let claims = claims_at(&user, now.secs, lifetime);
                (LoginState::AwaitToken { user }, Action::SignToken { claims })
            },
            _ => login_failed(unexpected()),
        },
        LoginState::AwaitToken { user } => match event {
            Event::Failed(error) => login_failed(error),
            Event::TokenSigned(token) => (LoginState::Done(Ok((token, user))), Action::Finish),
            _ => login_failed(unexpected()),
        },
    }
}

/// Logs a user in: one step of it. Begin with [`LoginState::New`] and
/// [`Event::Start`]. The one-time code is verified, and the clock read, on
/// the steps that need them. The step that issues the token adds the
/// configured lifetime to the time of issue: there, and nowhere else, the
/// lifetime must fit.
pub fn login(state: LoginState, event: Event, config: &Config) -> (step: (LoginState, Action))
    requires
        state is AwaitAudit && event is Executed ==> config.lifetime_fits(),
    ensures
        exists|now: Timestamp, verdict: Result<bool, AppErrorView>| #[trigger]
            login_inputs(state@, event@, now, verdict) && (step.0@, step.1@) == login_step(
                state@,
                event@,
                config.jwt_expiration,
                now,
                verdict,
            ),
{
    let stamps = match (&state, &event) {
        (LoginState::AwaitPassword { .. }, Event::PasswordVerified(true)) => true,
        (LoginState::AwaitAudit { .. }, Event::Executed { .. }) => true,
        _ => false,
    };
    let stamp = if stamps {
        now()
    } else {
        Timestamp { secs: 0, nanos: 0 }
    };
    let verdict = match (&state, &event) {
        (LoginState::AwaitPassword { payload, user }, Event::PasswordVerified(true)) => {
            if user.mfa_enabled {
                match (&payload.totp_code, &user.mfa_secret) {
                    (Some(code), Some(secret)) => verify_totp(code.as_str(), secret.as_str()),
                    _ => Ok(true),
                }
            } else {
                Ok(true)
            }
        },
        _ => Ok(true),
    };
    let ghost judged = outcome_view(verdict);
    let step = login_with(state, event, config.jwt_expiration, stamp, verdict);
    assert(login_inputs(state@, event@, stamp, judged) && (step.0@, step.1@) == login_step(
        state@,
        event@,
        config.jwt_expiration,
        stamp,
        judged,
    ));
    step
}

/// Opens an account for a visitor: one step of it. Begin with
/// [`SignupState::New`], holding
/// [`Account::of_registration`](crate::services::user_service::Account::of_registration)
/// of the payload, and [`Event::Start`]. The account has the role `user`; an
/// email address that is taken is refused with "Email already registered".
pub fn register(state: SignupState, event: Event) -> (step: (SignupState, Action))
    ensures
        exists|id: u128, created_at: Timestamp, updated_at: Timestamp| #[trigger]
            fresh(id, created_at, updated_at) && (step.0@, step.1@) == signup_step(
                Signup::Registration,
                state@,
                event@,
                id,
                created_at,
                updated_at,
            ),
{
    signup(Signup::Registration, state, event)
}

/// A failure ends a login with that very error, wherever it stands.
pub proof fn lemma_failures_propagate(
    state: LoginStateView,
    error: AppErrorView,
    lifetime: i64,
    now: Timestamp,
    verdict: Result<bool, AppErrorView>,
)
    requires
        !(state is Done),
    ensures
        login_step(state, EventView::Failed(error), lifetime, now, verdict) == (
            LoginStateView::Done(Err(error)),
            ActionView::Finish,
        ),
{
}

/// A wrong password is refused as unauthorized, with the very answer that
/// an unknown email address gets: the refusal does not tell whether the
/// address exists.
pub proof fn lemma_wrong_password(
    payload: LoginRequestView,
    user: UserView,
    lifetime: i64,
    now: Timestamp,
    verdict: Result<bool, AppErrorView>,
)
    ensures
        login_step(
            LoginStateView::AwaitPassword { payload, user },
            EventView::PasswordVerified(false),
            lifetime,
            now,
            verdict,
        ) == (LoginStateView::Done(Err(invalid_credentials())), ActionView::Finish),
        login_step(
            LoginStateView::AwaitUser { payload },
            EventView::UserFound(None),
            lifetime,
            now,
            verdict,
        ) == (LoginStateView::Done(Err(invalid_credentials())), ActionView::Finish),
        invalid_credentials() is Unauthorized,
{
}

/// With a second factor enabled, a login whose code is missing or does not
/// verify is refused as unauthorized, and one whose code verifies goes on to
/// be recorded.
pub proof fn lemma_second_factor(
    payload: LoginRequestView,
    user: UserView,
    lifetime: i64,
    now: Timestamp,
    verdict: Result<bool, AppErrorView>,
)
    requires
        user.mfa_enabled,
    ensures
        ({
            let step = login_step(
                LoginStateView::AwaitPassword { payload, user },
                EventView::PasswordVerified(true),
                lifetime,
                now,
                verdict,
            );
            &&& payload.totp_code is None || (user.mfa_secret is Some && verdict == Ok::<
                bool,
                AppErrorView,
            >(false)) ==> step.1 == ActionView::Finish && (step.0 matches LoginStateView::Done(
                Err(error),
            ) && error is Unauthorized)
            &&& payload.totp_code is Some && user.mfa_secret is Some && verdict == Ok::<
                bool,
                AppErrorView,
            >(true) ==> step.0 == (LoginStateView::AwaitAudit { user }) && step.1
                is InsertLoginAttempt
        }),
{
}

} // verus!
