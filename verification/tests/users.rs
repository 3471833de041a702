use unified_panel::api::users::list_users;
use unified_panel::clock::Timestamp;
use unified_panel::models::auth::{LoginResponse, RegisterRequest};
use unified_panel::models::user::{CreateUser, UpdateUser, User, UserResponse, UserRole};
use unified_panel::services::auth_service::register;
use unified_panel::services::flow::{Action, Event};
use unified_panel::services::user_service::{
    create_user, delete_user, get_user, signup_with, update_user, update_user_at, Account, Signup,
    SignupState,
};
use unified_panel::utils::errors::AppError;

fn at(secs: i64) -> Timestamp {
    Timestamp { secs, nanos: 0 }
}

fn user(id: u128, email: &str) -> User {
    User {
        id,
        email: email.to_string(),
        password_hash: "$2b$12$hash".to_string(),
        role: "reseller".to_string(),
        company: Some("ACME".to_string()),
        timezone: Some("Europe/Berlin".to_string()),
        avatar_url: None,
        mfa_enabled: true,
        mfa_secret: Some("OBWGC2LOFVZXI4TJNZTS243FMNZGK5BNGEZDG".to_string()),
        created_at: at(100),
        updated_at: at(150),
    }
}

fn registration() -> RegisterRequest {
    RegisterRequest {
        email: "new@example.com".to_string(),
        password: "correct horse".to_string(),
        company: Some("ACME".to_string()),
    }
}

fn account() -> Account {
    Account::of_registration(registration())
}

#[test]
fn a_registered_account_has_the_role_user() {
    assert_eq!(
        account(),
        Account {
            email: "new@example.com".to_string(),
            password: "correct horse".to_string(),
            role: UserRole::User,
            company: Some("ACME".to_string()),
        }
    );
}

#[test]
fn a_created_account_has_the_role_given_or_user() {
    let payload = |role| CreateUser {
        email: "new@example.com".to_string(),
        password: "pw".to_string(),
        role,
        company: None,
    };
    assert_eq!(Account::of_creation(payload(Some(UserRole::Admin))).role, UserRole::Admin);
    assert_eq!(Account::of_creation(payload(Some(UserRole::Reseller))).role, UserRole::Reseller);
    assert_eq!(Account::of_creation(payload(None)).role, UserRole::User);
    assert_eq!(
        Account::of_creation(payload(None)),
        Account {
            email: "new@example.com".to_string(),
            password: "pw".to_string(),
            role: UserRole::User,
            company: None,
        }
    );
}

#[test]
fn the_record_of_an_account_has_no_second_factor() {
    assert_eq!(
        account().into_user(9, "hashed".to_string(), at(1), at(2)),
        User {
            id: 9,
            email: "new@example.com".to_string(),
            password_hash: "hashed".to_string(),
            role: "user".to_string(),
            company: Some("ACME".to_string()),
            timezone: None,
            avatar_url: None,
            mfa_enabled: false,
            mfa_secret: None,
            created_at: at(1),
            updated_at: at(2),
        }
    );
}

#[test]
fn registration_looks_up_hashes_and_inserts() {
    let (state, action) = register(SignupState::New { account: account() }, Event::Start);
    assert_eq!(state, SignupState::AwaitLookup { account: account() });
    assert_eq!(action, Action::FindUserByEmail { email: "new@example.com".to_string() });

    let (state, action) = register(state, Event::UserFound(None));
    assert_eq!(state, SignupState::AwaitHash { account: account() });
    assert_eq!(action, Action::HashPassword { password: "correct horse".to_string() });

    let (state, action) = register(state, Event::PasswordHashed("hashed".to_string()));
    assert_eq!(state, SignupState::AwaitInsert);
    let row = match action {
        Action::InsertUser { user } => user,
        other => panic!("unexpected action {:?}", other),
    };
    assert_eq!(row, account().into_user(row.id, "hashed".to_string(), row.created_at, row.updated_at));
    assert_eq!(row.role, "user");
    assert_eq!((row.id >> 76) & 0xf, 4);
    assert!(row.created_at.secs > 1_600_000_000);

    let (state, action) = register(state, Event::UserStored(row.clone()));
    assert_eq!(state, SignupState::Done(Ok(row)));
    assert_eq!(action, Action::Finish);
}

#[test]
fn registration_with_a_taken_address_is_refused_without_an_insert() {
    let (state, action) = register(
        SignupState::AwaitLookup { account: account() },
        Event::UserFound(Some(user(1, "new@example.com"))),
    );
    assert_eq!(
        state,
        SignupState::Done(Err(AppError::BadRequest("Email already registered".to_string())))
    );
    assert_eq!(action, Action::Finish);
}

#[test]
fn creation_with_a_taken_address_is_refused_without_an_insert() {
    let (state, action) = create_user(
        SignupState::AwaitLookup { account: account() },
        Event::UserFound(Some(user(1, "new@example.com"))),
    );
    assert_eq!(
        state,
        SignupState::Done(Err(AppError::BadRequest("Email already exists".to_string())))
    );
    assert_eq!(action, Action::Finish);
}

#[test]
fn creation_stores_the_role_asked_for() {
    let account = Account::of_creation(CreateUser {
        email: "admin@example.com".to_string(),
        password: "pw".to_string(),
        role: Some(UserRole::Admin),
        company: None,
    });
    let (state, action) = signup_with(
        Signup::Administration,
        SignupState::AwaitHash { account },
        Event::PasswordHashed("hashed".to_string()),
        3,
        at(7),
        at(8),
    );
    assert_eq!(state, SignupState::AwaitInsert);
    assert_eq!(
        action,
        Action::InsertUser {
            user: User {
                id: 3,
                email: "admin@example.com".to_string(),
                password_hash: "hashed".to_string(),
                role: "admin".to_string(),
                company: None,
                timezone: None,
                avatar_url: None,
                mfa_enabled: false,
                mfa_secret: None,
                created_at: at(7),
                updated_at: at(8),
            }
        }
    );
}

#[test]
fn a_failure_ends_the_opening_of_an_account() {
    let down = AppError::DatabaseError("connection reset".to_string());
    let (state, action) =
        register(SignupState::AwaitLookup { account: account() }, Event::Failed(down.clone()));
    assert_eq!(state, SignupState::Done(Err(down.clone())));
    assert_eq!(action, Action::Finish);
    let weak = AppError::InternalError("hashing failed".to_string());
    let (state, _) =
        create_user(SignupState::AwaitHash { account: account() }, Event::Failed(weak.clone()));
    assert_eq!(state, SignupState::Done(Err(weak)));
    let (state, _) = register(SignupState::AwaitInsert, Event::Failed(down.clone()));
    assert_eq!(state, SignupState::Done(Err(down)));
}

#[test]
fn a_registered_user_is_fetched_as_it_was_returned() {
    let stored = user(4, "new@example.com");
    let (state, _) = register(SignupState::AwaitInsert, Event::UserStored(stored.clone()));
    assert_eq!(state, SignupState::Done(get_user(Some(stored))));
}

#[test]
fn fetching_a_user() {
    assert_eq!(get_user(Some(user(1, "a@example.com"))), Ok(user(1, "a@example.com")));
    assert_eq!(get_user(None), Err(AppError::NotFound("User not found".to_string())));
}

#[test]
fn an_update_replaces_the_profile_fields_given() {
    let update = UpdateUser {
        email: Some("b@example.com".to_string()),
        company: Some("Initech".to_string()),
        timezone: Some("UTC".to_string()),
        avatar_url: Some("https://example.com/a.png".to_string()),
    };
    assert_eq!(
        update_user_at(user(1, "a@example.com"), update, at(900)),
        User {
            email: "b@example.com".to_string(),
            company: Some("Initech".to_string()),
            timezone: Some("UTC".to_string()),
            avatar_url: Some("https://example.com/a.png".to_string()),
            updated_at: at(900),
            ..user(1, "a@example.com")
        }
    );
}

#[test]
fn an_update_keeps_what_it_does_not_give_and_clears_nothing() {
    let nothing = UpdateUser { email: None, company: None, timezone: None, avatar_url: None };
    assert_eq!(
        update_user_at(user(1, "a@example.com"), nothing.clone(), at(900)),
        User { updated_at: at(900), ..user(1, "a@example.com") }
    );
    let merged = update_user(Some(user(1, "a@example.com")), nothing).unwrap();
    assert!(merged.updated_at.secs > 1_600_000_000);
    assert_eq!(merged, User { updated_at: merged.updated_at, ..user(1, "a@example.com") });
}

#[test]
fn an_update_of_a_missing_user_is_not_found() {
    let missing = Err(AppError::NotFound("User not found".to_string()));
    let nothing = UpdateUser { email: None, company: None, timezone: None, avatar_url: None };
    assert_eq!(update_user(None, nothing), missing);
    let moved = UpdateUser {
        email: Some("b@example.com".to_string()),
        company: None,
        timezone: None,
        avatar_url: None,
    };
    assert_eq!(update_user(None, moved), missing);
}

#[test]
fn a_user_update_applies_what_it_gives() {
    let moved = UpdateUser {
        email: Some("b@example.com".to_string()),
        company: None,
        timezone: None,
        avatar_url: None,
    };
    let merged = update_user(Some(user(1, "a@example.com")), moved).unwrap();
    assert_eq!(
        merged,
        User {
            email: "b@example.com".to_string(),
            updated_at: merged.updated_at,
            ..user(1, "a@example.com")
        }
    );
}

#[test]
fn a_user_delete_that_touches_no_row_is_not_found() {
    assert_eq!(delete_user(0), Err(AppError::NotFound("User not found".to_string())));
    assert_eq!(delete_user(1), Ok(()));
}

#[test]
fn the_client_sees_no_secrets() {
    assert_eq!(
        UserResponse::from(user(1, "a@example.com")),
        UserResponse {
            id: 1,
            email: "a@example.com".to_string(),
            role: "reseller".to_string(),
            company: Some("ACME".to_string()),
            timezone: Some("Europe/Berlin".to_string()),
            avatar_url: None,
            mfa_enabled: true,
            created_at: at(100),
        }
    );
}

#[test]
fn a_listing_keeps_count_and_order() {
    assert_eq!(list_users(vec![]), vec![]);
    let users = vec![user(3, "c@example.com"), user(1, "a@example.com"), user(2, "b@example.com")];
    let shown = list_users(users.clone());
    assert_eq!(shown.len(), 3);
    for (shown, user) in shown.iter().zip(users) {
        assert_eq!(*shown, UserResponse::from(user));
    }
}

#[test]
fn a_login_response_wraps_token_and_user() {
    assert_eq!(
        LoginResponse::new("abc.def.ghi".to_string(), user(1, "a@example.com")),
        LoginResponse {
            token: "abc.def.ghi".to_string(),
            user: UserResponse::from(user(1, "a@example.com")),
        }
    );
}
