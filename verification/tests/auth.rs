use unified_panel::clock::Timestamp;
use unified_panel::config::Config;
use unified_panel::models::auth::{Claims, LoginRequest};
use unified_panel::models::user::User;
use unified_panel::services::auth_service::{
    check_second_factor, code_checked, login, login_with, verify_totp, LoginState, TOTP_DIGITS,
    TOTP_SKEW, TOTP_STEP,
};
use unified_panel::services::flow::{Action, Event};
use unified_panel::utils::errors::AppError;
use unified_panel::utils::jwt::{claims_at, generate_token, token_signed, verify_token};

const SECRET: &str = "OBWGC2LOFVZXI4TJNZTS243FMNZGK5BNGEZDG";

fn at(secs: i64) -> Timestamp {
    Timestamp { secs, nanos: 0 }
}

fn config() -> Config {
    Config {
        host: "0.0.0.0".to_string(),
        port: 3000,
        database_url: "postgres://localhost/panel".to_string(),
        jwt_secret: "jwt".to_string(),
        jwt_expiration: 86400,
        session_secret: "session".to_string(),
        cors_origin: "http://localhost:3000".to_string(),
        hetzner_api_token: None,
    }
}

fn user(mfa_enabled: bool, mfa_secret: Option<&str>) -> User {
    User {
        id: 0xa1a2a3a4b1b2c1c2d1d2d3d4d5d6d7d8,
        email: "a@example.com".to_string(),
        password_hash: "$2b$12$hash".to_string(),
        role: "admin".to_string(),
        company: None,
        timezone: None,
        avatar_url: None,
        mfa_enabled,
        mfa_secret: mfa_secret.map(|s| s.to_string()),
        created_at: at(100),
        updated_at: at(100),
    }
}

fn request(totp_code: Option<&str>) -> LoginRequest {
    LoginRequest {
        email: "a@example.com".to_string(),
        password: "hunter2".to_string(),
        totp_code: totp_code.map(|c| c.to_string()),
    }
}

fn unauthorized(message: &str) -> AppError {
    AppError::Unauthorized(message.to_string())
}

fn current_code() -> String {
    let secret = totp_rs::Secret::Encoded(SECRET.to_string()).to_bytes().unwrap();
    totp_rs::TOTP::new(totp_rs::Algorithm::SHA1, 6, 1, 30, secret)
        .unwrap()
        .generate_current()
        .unwrap()
}

/// A code that the secret accepts at no second near the present one.
fn wrong_code() -> String {
    let now = std::time::SystemTime::now()
        .duration_since(std::time::UNIX_EPOCH)
        .unwrap()
        .as_secs();
    let secret = totp_rs::Secret::Encoded(SECRET.to_string()).to_bytes().unwrap();
    let totp = totp_rs::TOTP::new(totp_rs::Algorithm::SHA1, 6, 1, 30, secret).unwrap();
    let near = [
        totp.generate(now - 60),
        totp.generate(now - 30),
        totp.generate(now),
        totp.generate(now + 30),
        totp.generate(now + 60),
    ];
    let mut n: u32 = near[2].parse().unwrap();
    loop {
        n = (n + 1) % 1_000_000;
        let candidate = format!("{:06}", n);
        if !near.contains(&candidate) {
            return candidate;
        }
    }
}

#[test]
fn the_second_factor_is_six_digits_every_thirty_seconds() {
    assert_eq!(TOTP_DIGITS, 6);
    assert_eq!(TOTP_SKEW, 1);
    assert_eq!(TOTP_STEP, 30);
}

#[test]
fn a_current_code_verifies() {
    assert_eq!(verify_totp(&current_code(), SECRET), Ok(true));
}

#[test]
fn another_code_does_not_verify() {
    assert_eq!(verify_totp(&wrong_code(), SECRET), Ok(false));
    assert_eq!(verify_totp("", SECRET), Ok(false));
    assert_eq!(verify_totp("12345", SECRET), Ok(false));
    assert_eq!(verify_totp("1234567", SECRET), Ok(false));
}

#[test]
fn a_secret_that_is_no_base32_is_an_internal_error() {
    assert_eq!(
        verify_totp("123456", "not base32!"),
        Err(AppError::InternalError("Invalid TOTP secret".to_string()))
    );
    assert_eq!(
        verify_totp("123456", "obwgc2lofvzxi4tjnzts243fmnzgk5bngezdg"),
        Err(AppError::InternalError("Invalid TOTP secret".to_string()))
    );
}

#[test]
fn a_secret_of_fewer_than_128_bits_is_an_internal_error() {
    assert_eq!(
        verify_totp("123456", "MFRGGZDFMZTWQ2LK"),
        Err(AppError::InternalError("Failed to create TOTP".to_string()))
    );
    assert_eq!(
        verify_totp("123456", ""),
        Err(AppError::InternalError("Failed to create TOTP".to_string()))
    );
    let sixteen_bytes = "MFRGGZDFMZTWQ2LKNNWG23TPOA";
    assert!(verify_totp("123456", sixteen_bytes).is_ok());
}

#[test]
fn a_clock_that_cannot_be_read_refuses_the_code() {
    assert_eq!(code_checked(Some(true)), Ok(true));
    assert_eq!(code_checked(Some(false)), Ok(false));
    assert_eq!(code_checked(None), Err(unauthorized("Invalid TOTP code")));
}

#[test]
fn the_second_factor_is_asked_only_of_accounts_that_have_one() {
    let none = None;
    let code = Some("123456".to_string());
    assert_eq!(check_second_factor(&user(false, None), &none, Ok(false)), Ok(()));
    assert_eq!(check_second_factor(&user(false, Some(SECRET)), &code, Ok(false)), Ok(()));
    assert_eq!(
        check_second_factor(&user(true, Some(SECRET)), &none, Ok(true)),
        Err(unauthorized("TOTP code required"))
    );
    assert_eq!(
        check_second_factor(&user(true, None), &code, Ok(true)),
        Err(unauthorized("MFA secret not found"))
    );
    assert_eq!(
        check_second_factor(&user(true, None), &none, Ok(true)),
        Err(unauthorized("TOTP code required"))
    );
    assert_eq!(
        check_second_factor(&user(true, Some(SECRET)), &code, Ok(false)),
        Err(unauthorized("Invalid TOTP code"))
    );
    assert_eq!(check_second_factor(&user(true, Some(SECRET)), &code, Ok(true)), Ok(()));
    let broken = AppError::InternalError("Invalid TOTP secret".to_string());
    assert_eq!(
        check_second_factor(&user(true, Some("x")), &code, Err(broken.clone())),
        Err(broken)
    );
}

#[test]
fn a_login_without_second_factor() {
    let (state, action) = login(LoginState::New { payload: request(None) }, Event::Start, &config());
    assert_eq!(state, LoginState::AwaitUser { payload: request(None) });
    assert_eq!(action, Action::FindUserByEmail { email: "a@example.com".to_string() });

    let (state, action) = login(state, Event::UserFound(Some(user(false, None))), &config());
    assert_eq!(state, LoginState::AwaitPassword { payload: request(None), user: user(false, None) });
    assert_eq!(
        action,
        Action::VerifyPassword {
            password: "hunter2".to_string(),
            hash: "$2b$12$hash".to_string(),
        }
    );

    let (state, action) = login(state, Event::PasswordVerified(true), &config());
    assert_eq!(state, LoginState::AwaitAudit { user: user(false, None) });
    match action {
        Action::InsertLoginAttempt { email, ip_address, success, attempted_at } => {
            assert_eq!(email, "a@example.com");
            assert_eq!(ip_address, "0.0.0.0");
            assert!(success);
            assert!(attempted_at.secs > 1_600_000_000);
        }
        other => panic!("unexpected action {:?}", other),
    }

    let (state, action) = login(state, Event::Executed { rows_affected: 1 }, &config());
    assert_eq!(state, LoginState::AwaitToken { user: user(false, None) });
    let claims = match action {
        Action::SignToken { claims } => claims,
        other => panic!("unexpected action {:?}", other),
    };
    assert_eq!(claims.sub, 0xa1a2a3a4b1b2c1c2d1d2d3d4d5d6d7d8);
    assert_eq!(claims.email, "a@example.com");
    assert_eq!(claims.role, "admin");
    assert!(claims.iat > 1_600_000_000);
    assert_eq!(claims.exp, claims.iat + 86400);

    let (state, action) = login(state, Event::TokenSigned("abc.def.ghi".to_string()), &config());
    assert_eq!(state, LoginState::Done(Ok(("abc.def.ghi".to_string(), user(false, None)))));
    assert_eq!(action, Action::Finish);
}

#[test]
fn the_lifetime_matters_only_where_the_token_is_issued() {
    let endless = Config { jwt_expiration: i64::MAX, ..config() };
    assert!(!endless.check_lifetime());
    let (state, action) =
        login(LoginState::New { payload: request(None) }, Event::Start, &endless);
    assert_eq!(action, Action::FindUserByEmail { email: "a@example.com".to_string() });
    let (state, _) = login(state, Event::UserFound(Some(user(false, None))), &endless);
    let (state, _) = login(state, Event::PasswordVerified(false), &endless);
    assert_eq!(state, LoginState::Done(Err(unauthorized("Invalid credentials"))));
    let (state, _) = login(
        LoginState::AwaitPassword { payload: request(None), user: user(false, None) },
        Event::PasswordVerified(true),
        &endless,
    );
    assert_eq!(state, LoginState::AwaitAudit { user: user(false, None) });
    let down = AppError::DatabaseError("connection reset".to_string());
    let (state, _) = login(state, Event::Failed(down.clone()), &endless);
    assert_eq!(state, LoginState::Done(Err(down)));
}

#[test]
fn login_steps_with_given_clock_are_exact() {
    let (state, action) = login_with(
        LoginState::AwaitPassword { payload: request(None), user: user(false, None) },
        Event::PasswordVerified(true),
        3600,
        at(1_700_000_000),
        Ok(true),
    );
    assert_eq!(state, LoginState::AwaitAudit { user: user(false, None) });
    assert_eq!(
        action,
        Action::InsertLoginAttempt {
            email: "a@example.com".to_string(),
            ip_address: "0.0.0.0".to_string(),
            success: true,
            attempted_at: at(1_700_000_000),
        }
    );
    let (state, action) =
        login_with(state, Event::Executed { rows_affected: 1 }, 3600, at(1_700_000_005), Ok(true));
    assert_eq!(state, LoginState::AwaitToken { user: user(false, None) });
    assert_eq!(
        action,
        Action::SignToken {
            claims: Claims {
                sub: 0xa1a2a3a4b1b2c1c2d1d2d3d4d5d6d7d8,
                email: "a@example.com".to_string(),
                role: "admin".to_string(),
                exp: 1_700_003_605,
                iat: 1_700_000_005,
            }
        }
    );
}

#[test]
fn an_unknown_address_and_a_wrong_password_get_the_same_answer() {
    let (unknown, unknown_action) =
        login(LoginState::AwaitUser { payload: request(None) }, Event::UserFound(None), &config());
    let (wrong, wrong_action) = login(
        LoginState::AwaitPassword { payload: request(None), user: user(false, None) },
        Event::PasswordVerified(false),
        &config(),
    );
    assert_eq!(unknown, LoginState::Done(Err(unauthorized("Invalid credentials"))));
    assert_eq!(wrong, unknown);
    assert_eq!(unknown_action, Action::Finish);
    assert_eq!(wrong_action, Action::Finish);
}

#[test]
fn a_wrong_password_is_refused_before_the_second_factor_is_looked_at() {
    let (state, _) = login(
        LoginState::AwaitPassword { payload: request(None), user: user(true, Some(SECRET)) },
        Event::PasswordVerified(false),
        &config(),
    );
    assert_eq!(state, LoginState::Done(Err(unauthorized("Invalid credentials"))));
}

#[test]
fn a_missing_code_is_refused() {
    let (state, action) = login(
        LoginState::AwaitPassword { payload: request(None), user: user(true, Some(SECRET)) },
        Event::PasswordVerified(true),
        &config(),
    );
    assert_eq!(state, LoginState::Done(Err(unauthorized("TOTP code required"))));
    assert_eq!(action, Action::Finish);
}

#[test]
fn a_wrong_code_is_refused() {
    let wrong = wrong_code();
    let (state, action) = login(
        LoginState::AwaitPassword {
            payload: request(Some(&wrong)),
            user: user(true, Some(SECRET)),
        },
        Event::PasswordVerified(true),
        &config(),
    );
    assert_eq!(state, LoginState::Done(Err(unauthorized("Invalid TOTP code"))));
    assert_eq!(action, Action::Finish);
}

#[test]
fn a_current_code_lets_the_login_pass() {
    let code = current_code();
    let (state, action) = login(
        LoginState::AwaitPassword {
            payload: request(Some(&code)),
            user: user(true, Some(SECRET)),
        },
        Event::PasswordVerified(true),
        &config(),
    );
    assert_eq!(state, LoginState::AwaitAudit { user: user(true, Some(SECRET)) });
    assert!(matches!(action, Action::InsertLoginAttempt { success: true, .. }));
}

#[test]
fn a_second_factor_without_secret_is_refused() {
    let (state, _) = login(
        LoginState::AwaitPassword { payload: request(Some("123456")), user: user(true, None) },
        Event::PasswordVerified(true),
        &config(),
    );
    assert_eq!(state, LoginState::Done(Err(unauthorized("MFA secret not found"))));
}

#[test]
fn a_broken_secret_is_an_internal_error() {
    let (state, _) = login(
        LoginState::AwaitPassword {
            payload: request(Some("123456")),
            user: user(true, Some("not base32!")),
        },
        Event::PasswordVerified(true),
        &config(),
    );
    assert_eq!(
        state,
        LoginState::Done(Err(AppError::InternalError("Invalid TOTP secret".to_string())))
    );
}

#[test]
fn a_code_is_ignored_where_no_second_factor_is_enabled() {
    let (state, _) = login(
        LoginState::AwaitPassword {
            payload: request(Some("000000")),
            user: user(false, Some(SECRET)),
        },
        Event::PasswordVerified(true),
        &config(),
    );
    assert_eq!(state, LoginState::AwaitAudit { user: user(false, Some(SECRET)) });
}

#[test]
fn failures_of_the_collaborators_end_the_login() {
    let down = AppError::DatabaseError("connection reset".to_string());
    let (state, action) = login(
        LoginState::AwaitUser { payload: request(None) },
        Event::Failed(down.clone()),
        &config(),
    );
    assert_eq!(state, LoginState::Done(Err(down.clone())));
    assert_eq!(action, Action::Finish);
    let (state, _) =
        login(LoginState::AwaitAudit { user: user(false, None) }, Event::Failed(down.clone()), &config());
    assert_eq!(state, LoginState::Done(Err(down)));
    let signing = AppError::InternalError("Failed to generate token: key".to_string());
    let (state, _) = login(
        LoginState::AwaitToken { user: user(false, None) },
        Event::Failed(signing.clone()),
        &config(),
    );
    assert_eq!(state, LoginState::Done(Err(signing)));
}

#[test]
fn claims_name_the_user_and_expire_after_the_lifetime() {
    assert_eq!(
        claims_at(&user(false, None), 1_700_000_000, 86400),
        Claims {
            sub: 0xa1a2a3a4b1b2c1c2d1d2d3d4d5d6d7d8,
            email: "a@example.com".to_string(),
            role: "admin".to_string(),
            exp: 1_700_086_400,
            iat: 1_700_000_000,
        }
    );
    assert_eq!(claims_at(&user(false, None), 10, -60).exp, -50);
    assert_eq!(claims_at(&user(false, None), 0, 0).exp, 0);
}

#[test]
fn a_token_is_issued_now() {
    let before = std::time::SystemTime::now()
        .duration_since(std::time::UNIX_EPOCH)
        .unwrap()
        .as_secs() as i64;
    let claims = generate_token(&user(false, None), &config());
    assert!(before <= claims.iat && claims.iat <= before + 5);
    assert_eq!(claims, claims_at(&user(false, None), claims.iat, 86400));
}

#[test]
fn a_signing_failure_is_an_internal_error() {
    assert_eq!(token_signed(Ok("abc.def.ghi".to_string())), Ok("abc.def.ghi".to_string()));
    assert_eq!(
        token_signed(Err("InvalidKeyFormat".to_string())),
        Err(AppError::InternalError("Failed to generate token: InvalidKeyFormat".to_string()))
    );
}

#[test]
fn a_refused_token_is_unauthorized() {
    let claims = claims_at(&user(false, None), 5, 5);
    assert_eq!(verify_token(Ok(claims.clone())), Ok(claims));
    assert_eq!(
        verify_token(Err("ExpiredSignature".to_string())),
        Err(unauthorized("Invalid token: ExpiredSignature"))
    );
}
