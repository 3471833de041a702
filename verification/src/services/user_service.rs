//! Operations on user records.

use crate::clock::{clock_reading, now, Timestamp};
use crate::ident::{fresh, is_random_id, new_id};
use crate::models::auth::{RegisterRequest, RegisterRequestView};
use crate::models::user::{
    CreateUser, CreateUserView, UpdateUser, UpdateUserView, User, UserRole, UserView,
};
use crate::services::flow::{unexpected, unexpected_event, Action, ActionView, Event, EventView};
use crate::services::server_service::{replaced, replaced_optional};
use crate::utils::errors::{AppError, AppErrorView};
use vstd::prelude::*;
use vstd::string::*;

verus! {

/// The error of a lookup or a delete that matched no user.
pub open spec fn user_not_found() -> AppErrorView {
    AppErrorView::NotFound("User not found"@)
}

fn not_found() -> (error: AppError)
    ensures
        error@ == user_not_found(),
{
    AppError::NotFound("User not found".to_owned())
}

/// What a lookup amounts to: the row found, or not found.
pub open spec fn fetched_user(found: Option<UserView>) -> Result<UserView, AppErrorView> {
    match found {
        Some(user) => Ok(user),
        None => Err(user_not_found()),
    }
}

/// What a delete amounts to, by the number of rows it touched.
pub open spec fn deleted_user(rows_affected: u64) -> Result<(), AppErrorView> {
    if rows_affected == 0 {
        Err(user_not_found())
    } else {
        Ok(())
    }
}

/// A user record after an update: each profile field replaced where the
/// payload gives it, the time of change set, all else kept.
pub open spec fn updated_user(
    user: UserView,
    payload: UpdateUserView,
    updated_at: Timestamp,
) -> UserView {
    UserView {
        email: replaced(user.email, payload.email),
        company: replaced_optional(user.company, payload.company),
        timezone: replaced_optional(user.timezone, payload.timezone),
        avatar_url: replaced_optional(user.avatar_url, payload.avatar_url),
        updated_at,
        ..user
    }
}

/// What an update amounts to, as of `updated_at`: not found where the lookup
/// found no record, and the record with the update applied where it found
/// one.
pub open spec fn user_update(
    found: Option<UserView>,
    payload: UpdateUserView,
    updated_at: Timestamp,
) -> Result<UserView, AppErrorView> {
    match found {
        Some(user) => Ok(updated_user(user, payload, updated_at)),
        None => Err(user_not_found()),
    }
}

/// The user that a lookup found, or `NotFound` where it found none.
pub fn get_user(found: Option<User>) -> (outcome: Result<User, AppError>)
    ensures
        match fetched_user(found.deep_view()) {
            Ok(user) => outcome is Ok && outcome->Ok_0@ == user,
            Err(error) => outcome is Err && outcome->Err_0@ == error,
        },
        found matches Some(user) ==> outcome == Ok::<User, AppError>(user),
{
    match found {
        Some(user) => Ok(user),
        None => Err(not_found()),
    }
}

/// Applies an update to a user record, as of `updated_at`.
pub fn update_user_at(user: User, payload: UpdateUser, updated_at: Timestamp) -> (merged: User)
    ensures
        merged@ == updated_user(user@, payload@, updated_at),
{
    let mut merged = user;
    match payload.email {
        Some(email) => {
            merged.email = email;
        },
        None => {},
    }
    match payload.company {
        Some(company) => {
            merged.company = Some(company);
        },
        None => {},
    }
    match payload.timezone {
        Some(timezone) => {
            merged.timezone = Some(timezone);
        },
        None => {},
    }
    match payload.avatar_url {
        Some(avatar_url) => {
            merged.avatar_url = Some(avatar_url);
        },
        None => {},
    }
    merged.updated_at = updated_at;
    merged
}

/// Updates a user, given what the lookup of it found. A user that does not
/// exist is reported as not found, and nothing is to be written. Otherwise
/// the result is the row to write back: the record with the update applied,
/// stamped with the clock's reading.
pub fn update_user(found: Option<User>, payload: UpdateUser) -> (outcome: Result<User, AppError>)
    ensures
        exists|updated_at: Timestamp| #[trigger]
            clock_reading(updated_at) && match user_update(
                found.deep_view(),
                payload@,
                updated_at,
            ) {
                Ok(merged) => outcome is Ok && outcome->Ok_0@ == merged,
                Err(error) => outcome is Err && outcome->Err_0@ == error,
            },
{
    match found {
        Some(user) => {
            let updated_at = now();
            let merged = update_user_at(user, payload, updated_at);
            assert(clock_reading(updated_at) && user_update(
                found.deep_view(),
                payload@,
                updated_at,
            ) == Ok::<UserView, AppErrorView>(merged@));
            Ok(merged)
        },
        None => {
            let ghost epoch = Timestamp { secs: 0, nanos: 0 };
            let error = not_found();
            assert(clock_reading(epoch) && user_update(found.deep_view(), payload@, epoch) == Err::<
                UserView,
                AppErrorView,
            >(error@));
            Err(error)
        },
    }
}

/// The result of a user's delete: `NotFound` where it touched no row.
pub fn delete_user(rows_affected: u64) -> (outcome: Result<(), AppError>)
    ensures
        match deleted_user(rows_affected) {
            Ok(_) => outcome is Ok,
            Err(error) => outcome is Err && outcome->Err_0@ == error,
        },
{
    if rows_affected == 0 {
        Err(not_found())
    } else {
        Ok(())
    }
}

/// Who opens an account.
#[derive(Debug, Clone, Copy, PartialEq, Eq)]
pub enum Signup {
    /// A visitor, for themselves.
    Registration,
    /// An administrator, for someone else.
    Administration,
}

impl Signup {
    /// The refusal of an email address that is taken.
    pub open spec fn taken(self) -> AppErrorView {
        match self {
            Signup::Registration => AppErrorView::BadRequest("Email already registered"@),
            Signup::Administration => AppErrorView::BadRequest("Email already exists"@),
        }
    }

    fn email_taken(self) -> (error: AppError)
        ensures
            error@ == self.taken(),
    {
        match self {
            Signup::Registration => AppError::BadRequest("Email already registered".to_owned()),
            Signup::Administration => AppError::BadRequest("Email already exists".to_owned()),
        }
    }
}

/// The account to open.
#[derive(Debug, Clone, PartialEq, Eq)]
pub struct Account {
    pub email: String,
    pub password: String,
    pub role: UserRole,
    pub company: Option<String>,
}

/// Mathematical value of an [`Account`].
pub struct AccountView {
    pub email: Seq<char>,
    pub password: Seq<char>,
    pub role: UserRole,
    pub company: Option<Seq<char>>,
}

impl View for Account {
    type V = AccountView;

    open spec fn view(&self) -> AccountView {
        AccountView {
            email: self.email@,
            password: self.password@,
            role: self.role,
            company: self.company.deep_view(),
        }
    }
}

impl AccountView {
    /// The account that a visitor registers: always of role `User`.
    pub open spec fn of_registration(payload: RegisterRequestView) -> AccountView {
        AccountView {
            email: payload.email,
            password: payload.password,
            role: UserRole::User,
            company: payload.company,
        }
    }

    /// The account that an administrator creates: of the role given, `User`
    /// where none is.
    pub open spec fn of_creation(payload: CreateUserView) -> AccountView {
        AccountView {
            email: payload.email,
            password: payload.password,
            role: match payload.role {
                Some(role) => role,
                None => UserRole::User,
            },
            company: payload.company,
        }
    }

    /// The record of the account once its password is hashed: no profile
    /// beyond the company, and no second factor.
    pub open spec fn user(
        self,
        id: u128,
        password_hash: Seq<char>,
        created_at: Timestamp,
        updated_at: Timestamp,
    ) -> UserView {
        UserView {
            id,
            email: self.email,
            password_hash,
            role: self.role.name(),
            company: self.company,
            timezone: None,
            avatar_url: None,
            mfa_enabled: false,
            mfa_secret: None,
            created_at,
            updated_at,
        }
    }
}

impl Account {
    /// The account that a visitor registers.
    pub fn of_registration(payload: RegisterRequest) -> (account: Account)
        ensures
            account@ == AccountView::of_registration(payload@),
    {
        Account {
            email: payload.email,
            password: payload.password,
            role: UserRole::User,
            company: payload.company,
        }
    }

    /// The account that an administrator creates.
    pub fn of_creation(payload: CreateUser) -> (account: Account)
        ensures
            account@ == AccountView::of_creation(payload@),
    {
        let role = match payload.role {
            Some(role) => role,
            None => UserRole::User,
        };
        Account { email: payload.email, password: payload.password, role, company: payload.company }
    }

    /// The record of the account once its password is hashed.
    pub fn into_user(
        self,
        id: u128,
        password_hash: String,
        created_at: Timestamp,
        updated_at: Timestamp,
    ) -> (user: User)
        ensures
            user@ == self@.user(id, password_hash@, created_at, updated_at),
    {
        User {
            id,
            email: self.email,
            password_hash,
            role: self.role.as_str().to_owned(),
            company: self.company,
            timezone: None,
            avatar_url: None,
            mfa_enabled: false,
            mfa_secret: None,
            created_at,
            updated_at,
        }
    }
}

/// Where the opening of an account stands.
#[derive(Debug, PartialEq, Eq)]
pub enum SignupState {
    /// Not begun.
    New { account: Account },
    /// The email address is being looked up.
    AwaitLookup { account: Account },
    /// The password is being hashed.
    AwaitHash { account: Account },
    /// The record is being inserted.
    AwaitInsert,
    /// Over, with this result.
    Done(Result<User, AppError>),
}

/// Mathematical value of a [`SignupState`].
pub enum SignupStateView {
    New { account: AccountView },
    AwaitLookup { account: AccountView },
    AwaitHash { account: AccountView },
    AwaitInsert,
    Done(Result<UserView, AppErrorView>),
}

impl View for SignupState {
    type V = SignupStateView;

    open spec fn view(&self) -> SignupStateView {
        match self {
            SignupState::New { account } => SignupStateView::New { account: account@ },
            SignupState::AwaitLookup { account } => SignupStateView::AwaitLookup {
                account: account@,
            },
            SignupState::AwaitHash { account } => SignupStateView::AwaitHash { account: account@ },
            SignupState::AwaitInsert => SignupStateView::AwaitInsert,
            SignupState::Done(x) => SignupStateView::Done(
                match x {
                    Ok(value) => Ok(value@),
                    Err(error) => Err(error@),
                },
            ),
        }
    }
}

/// One step of the opening of an account; `id` is the identifier drawn for
/// the record, `created_at` and `updated_at` are readings of the clock.
///
/// The email address is looked up. Where a user has it, the account is
/// refused as a bad request: nothing is hashed and nothing inserted.
/// Otherwise the password is hashed and the record inserted; the result is
/// the row as stored. Lookup and insert are two statements: of two accounts
/// opened at once with one address, both can pass the lookup.
pub open spec fn signup_step(
    origin: Signup,
    state: SignupStateView,
    event: EventView,
    id: u128,
    created_at: Timestamp,
    updated_at: Timestamp,
) -> (SignupStateView, ActionView) {
    match (state, event) {
        (SignupStateView::Done(result), _) => (SignupStateView::Done(result), ActionView::Finish),
        (_, EventView::Failed(error)) => (SignupStateView::Done(Err(error)), ActionView::Finish),
        (SignupStateView::New { account }, EventView::Start) => (
            SignupStateView::AwaitLookup { account },
            ActionView::FindUserByEmail { email: account.email },
        ),
        (SignupStateView::AwaitLookup { account }, EventView::UserFound(Some(_))) => (
            SignupStateView::Done(Err(origin.taken())),
            ActionView::Finish,
        ),
        (SignupStateView::AwaitLookup { account }, EventView::UserFound(None)) => (
            SignupStateView::AwaitHash { account },
            ActionView::HashPassword { password: account.password },
        ),
        (SignupStateView::AwaitHash { account }, EventView::PasswordHashed(hash)) => (
            SignupStateView::AwaitInsert,
            ActionView::InsertUser { user: account.user(id, hash, created_at, updated_at) },
        ),
        (SignupStateView::AwaitInsert, EventView::UserStored(user)) => (
            SignupStateView::Done(Ok(user)),
            ActionView::Finish,
        ),
        _ => (SignupStateView::Done(Err(unexpected_event())), ActionView::Finish),
    }
}

fn signup_failed(error: AppError) -> (step: (SignupState, Action))
    ensures
        step.0@ == SignupStateView::Done(Err(error@)),
        step.1@ == ActionView::Finish,
{
    (SignupState::Done(Err(error)), Action::Finish)
}

/// One step of the opening of an account, with the identifier for the record
/// and the clock's readings given.
pub fn signup_with(
    origin: Signup,
    state: SignupState,
    event: Event,
    id: u128,
    created_at: Timestamp,
    updated_at: Timestamp,
) -> (step: (SignupState, Action))
    ensures
        (step.0@, step.1@) == signup_step(origin, state@, event@, id, created_at, updated_at),
{
    match state {
        SignupState::Done(result) => (SignupState::Done(result), Action::Finish),
        SignupState::New { account } => match event {
            Event::Failed(error) => signup_failed(error),
            Event::Start => {
                let email = account.email.clone();
                (SignupState::AwaitLookup { account }, Action::FindUserByEmail { email })
            },
            _ => signup_failed(unexpected()),
        },
        SignupState::AwaitLookup { account } => match event {
            Event::Failed(error) => signup_failed(error),
            Event::UserFound(Some(_)) => signup_failed(origin.email_taken()),
            Event::UserFound(None) => {
                let password = account.password.clone();
                (SignupState::AwaitHash { account }, Action::HashPassword { password })
            },
            _ => signup_failed(unexpected()),
        },
        SignupState::AwaitHash { account } => match event {
            Event::Failed(error) => signup_failed(error),
            Event::PasswordHashed(hash) => (
                SignupState::AwaitInsert,
                Action::InsertUser { user: account.into_user(id, hash, created_at, updated_at) },
            ),
            _ => signup_failed(unexpected()),
        },
        SignupState::AwaitInsert => match event {
            Event::Failed(error) => signup_failed(error),
            Event::UserStored(user) => (SignupState::Done(Ok(user)), Action::Finish),
            _ => signup_failed(unexpected()),
        },
    }
}

/// One step of the opening of an account; the identifier is drawn and the
/// clock is read on the step that builds the record.
pub fn signup(origin: Signup, state: SignupState, event: Event) -> (step: (SignupState, Action))
    ensures
        exists|id: u128, created_at: Timestamp, updated_at: Timestamp| #[trigger]
            fresh(id, created_at, updated_at) && (step.0@, step.1@) == signup_step(
                origin,
                state@,
                event@,
                id,
                created_at,
                updated_at,
            ),
{
    let inserts = matches!(state, SignupState::AwaitHash { .. }) && matches!(
        event,
        Event::PasswordHashed(_)
    );
    let (id, created_at, updated_at) = if inserts {
        (new_id(), now(), now())
    } else {
        let epoch = Timestamp { secs: 0, nanos: 0 };
        assert(is_random_id(0x4000_8000_0000_0000_0000)) by (bit_vector);
        (0x4000_8000_0000_0000_0000, epoch, epoch)
    };
    let step = signup_with(origin, state, event, id, created_at, updated_at);
    assert(fresh(id, created_at, updated_at) && (step.0@, step.1@) == signup_step(
        origin,
        state@,
        event@,
        id,
        created_at,
        updated_at,
    ));
    step
}

/// Creates a user on an administrator's behalf: one step of it. Begin with
/// [`SignupState::New`], holding [`Account::of_creation`] of the payload, and
/// [`Event::Start`]. An email address that is taken is refused with "Email
/// already exists".
pub fn create_user(state: SignupState, event: Event) -> (step: (SignupState, Action))
    ensures
        exists|id: u128, created_at: Timestamp, updated_at: Timestamp| #[trigger]
            fresh(id, created_at, updated_at) && (step.0@, step.1@) == signup_step(
                Signup::Administration,
                state@,
                event@,
                id,
                created_at,
                updated_at,
            ),
{
    signup(Signup::Administration, state, event)
}

/// A failure ends the opening of an account with that very error, wherever
/// it stands.
pub proof fn lemma_failures_propagate(
    origin: Signup,
    state: SignupStateView,
    error: AppErrorView,
    id: u128,
    now: Timestamp,
)
    requires
        !(state is Done),
    ensures
        signup_step(origin, state, EventView::Failed(error), id, now, now) == (
            SignupStateView::Done(Err(error)),
            ActionView::Finish,
        ),
{
}

/// An account whose email address is taken is refused as a bad request, and
/// the step that refuses asks for nothing that writes to the store: no row is
/// inserted.
pub proof fn lemma_signup_duplicate(
    origin: Signup,
    account: AccountView,
    existing: UserView,
    id: u128,
    created_at: Timestamp,
    updated_at: Timestamp,
)
    ensures
        ({
            let step = signup_step(
                origin,
                SignupStateView::AwaitLookup { account },
                EventView::UserFound(Some(existing)),
                id,
                created_at,
                updated_at,
            );
            &&& step.0 == SignupStateView::Done(Err(origin.taken()))
            &&& origin.taken() is BadRequest
            &&& step.1 == ActionView::Finish
            &&& !step.1.writes_store()
        }),
{
}

/// Updating a user that does not exist is reported as not found, whatever
/// the update asks for and whenever it is made; updating one that exists
/// succeeds.
pub proof fn lemma_update_missing(user: UserView, payload: UpdateUserView, updated_at: Timestamp)
    ensures
        user_update(None, payload, updated_at) == Err::<UserView, AppErrorView>(
            user_not_found(),
        ),
        user_not_found() is NotFound,
        user_update(Some(user), payload, updated_at) is Ok,
{
}

/// Deleting a user that does not exist is reported as not found, never as a
/// success; deleting one that exists succeeds.
pub proof fn lemma_delete_missing(rows_affected: u64)
    ensures
        deleted_user(0) == Err::<(), AppErrorView>(user_not_found()),
        rows_affected > 0 ==> deleted_user(rows_affected) == Ok::<(), AppErrorView>(()),
{
}

/// A user that the store returns for the identifier under which it was just
/// stored is fetched as the very record that opening the account returned.
pub proof fn lemma_user_read_after_write(
    origin: Signup,
    stored: UserView,
    id: u128,
    created_at: Timestamp,
    updated_at: Timestamp,
)
    ensures
        signup_step(
            origin,
            SignupStateView::AwaitInsert,
            EventView::UserStored(stored),
            id,
            created_at,
            updated_at,
        ).0 == SignupStateView::Done(fetched_user(Some(stored))),
{
}

} // verus!
