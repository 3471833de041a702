//! The vocabulary between an operation and the program that runs it.
//!
//! An operation that has to wait for the store, the provider or another
//! collaborator is a transition function: it is handed its state and an
//! [`Event`], and answers with its next state and the [`Action`] to perform.
//! The caller performs the action, turns what came back into an event, and
//! calls again, until the action is [`Action::Finish`].
//!
//! An action that fails is answered by [`Event::Failed`], which ends the
//! operation with that error; nothing is retried. An event that the state
//! does not await ends the operation with an internal error, and an
//! operation that is over stays over, whatever it is handed.

use crate::clock::Timestamp;
use crate::models::auth::{Claims, ClaimsView};
use crate::models::user::{User, UserView};
use crate::models::vps::{HetznerServer, HetznerServerView, Vps, VpsView};
use crate::services::vps_service::{HetznerCall, HetznerCallView};
use crate::utils::errors::{AppError, AppErrorView};
use vstd::prelude::*;

verus! {

/// What the caller is asked to do next.
#[derive(Debug, Clone, PartialEq, Eq)]
pub enum Action {
    /// Look up the user with this email address. Answered by
    /// [`Event::UserFound`].
    FindUserByEmail { email: String },
    /// Check a password against a stored hash. Answered by
    /// [`Event::PasswordVerified`].
    VerifyPassword { password: String, hash: String },
    /// Hash a password for storage. Answered by [`Event::PasswordHashed`].
    HashPassword { password: String },
    /// Append a row to the login audit. Answered by [`Event::Executed`].
    InsertLoginAttempt {
        email: String,
        ip_address: String,
        success: bool,
        attempted_at: Timestamp,
    },
    /// Sign these claims with the configured secret. Answered by
    /// [`Event::TokenSigned`].
    SignToken { claims: Claims },
    /// Insert this user. Answered by [`Event::UserStored`] with the row as
    /// stored.
    InsertUser { user: User },
    /// Look up the VPS record with this identifier. Answered by
    /// [`Event::VpsFound`].
    FindVps { id: u128 },
    /// Insert this VPS record. Answered by [`Event::VpsStored`] with the row
    /// as stored.
    InsertVps { vps: Vps },
    /// Overwrite status, addresses and time of change of the VPS record
    /// `id`, and nothing else. Answered by [`Event::VpsStored`].
    RefreshVps {
        id: u128,
        status: String,
        ipv4: Option<String>,
        ipv6: Option<String>,
        updated_at: Timestamp,
    },
    /// Delete the VPS record with this identifier. Answered by
    /// [`Event::Executed`].
    DeleteVps { id: u128 },
    /// Make this call to the provider and wait for its response. Answered
    /// by [`Event::ProviderServer`] where the call yields a descriptor, by
    /// [`Event::ProviderDone`] where it yields an acknowledgement.
    Provider(HetznerCall),
    /// Hand this call to a background task and do not wait for it: its
    /// outcome is logged, never reported. Answered by [`Event::Detached`].
    DetachProvider(HetznerCall),
    /// Wait this many seconds. Answered by [`Event::Slept`].
    Sleep { secs: u64 },
    /// Nothing is left to do: the state holds the operation's result.
    Finish,
}

/// Mathematical value of an [`Action`].
pub enum ActionView {
    FindUserByEmail { email: Seq<char> },
    VerifyPassword { password: Seq<char>, hash: Seq<char> },
    HashPassword { password: Seq<char> },
    InsertLoginAttempt {
        email: Seq<char>,
        ip_address: Seq<char>,
        success: bool,
        attempted_at: Timestamp,
    },
    SignToken { claims: ClaimsView },
    InsertUser { user: UserView },
    FindVps { id: u128 },
    InsertVps { vps: VpsView },
    RefreshVps {
        id: u128,
        status: Seq<char>,
        ipv4: Option<Seq<char>>,
        ipv6: Option<Seq<char>>,
        updated_at: Timestamp,
    },
    DeleteVps { id: u128 },
    Provider(HetznerCallView),
    DetachProvider(HetznerCallView),
    Sleep { secs: u64 },
    Finish,
}

impl View for Action {
    type V = ActionView;

    open spec fn view(&self) -> ActionView {
        match self {
            Action::FindUserByEmail { email } => ActionView::FindUserByEmail { email: email@ },
            Action::VerifyPassword { password, hash } => ActionView::VerifyPassword {
                password: password@,
                hash: hash@,
            },
            Action::HashPassword { password } => ActionView::HashPassword { password: password@ },
            Action::InsertLoginAttempt {
                email,
                ip_address,
                success,
                attempted_at,
            } => ActionView::InsertLoginAttempt {
                email: email@,
                ip_address: ip_address@,
                success: *success,
                attempted_at: *attempted_at,
            },
            Action::SignToken { claims } => ActionView::SignToken { claims: claims@ },
            Action::InsertUser { user } => ActionView::InsertUser { user: user@ },
            Action::FindVps { id } => ActionView::FindVps { id: *id },
            Action::InsertVps { vps } => ActionView::InsertVps { vps: vps@ },
            Action::RefreshVps { id, status, ipv4, ipv6, updated_at } => ActionView::RefreshVps {
                id: *id,
                status: status@,
                ipv4: ipv4.deep_view(),
                ipv6: ipv6.deep_view(),
                updated_at: *updated_at,
            },
            Action::DeleteVps { id } => ActionView::DeleteVps { id: *id },
            Action::Provider(x) => ActionView::Provider(x@),
            Action::DetachProvider(x) => ActionView::DetachProvider(x@),
            Action::Sleep { secs } => ActionView::Sleep { secs: *secs },
            Action::Finish => ActionView::Finish,
        }
    }
}

/// What the caller reports back.
#[derive(Debug, Clone, PartialEq, Eq)]
pub enum Event {
    /// The operation is to begin.
    Start,
    /// The user looked up, or `None` where no row matched.
    UserFound(Option<User>),
    /// Whether the password matches the hash.
    PasswordVerified(bool),
    /// The hash of the password.
    PasswordHashed(String),
    /// A statement ran and touched this many rows.
    Executed { rows_affected: u64 },
    /// The signed token.
    TokenSigned(String),
    /// The user row as the store returned it.
    UserStored(User),
    /// The VPS record looked up, or `None` where no row matched.
    VpsFound(Option<Vps>),
    /// The VPS row as the store returned it.
    VpsStored(Vps),
    /// The descriptor in the provider's response.
    ProviderServer(HetznerServer),
    /// The provider acknowledged the call.
    ProviderDone,
    /// The background task was started.
    Detached,
    /// The wait is over.
    Slept,
    /// The action failed, for this reason.
    Failed(AppError),
}

/// Mathematical value of an [`Event`].
pub enum EventView {
    Start,
    UserFound(Option<UserView>),
    PasswordVerified(bool),
    PasswordHashed(Seq<char>),
    Executed { rows_affected: u64 },
    TokenSigned(Seq<char>),
    UserStored(UserView),
    VpsFound(Option<VpsView>),
    VpsStored(VpsView),
    ProviderServer(HetznerServerView),
    ProviderDone,
    Detached,
    Slept,
    Failed(AppErrorView),
}

impl View for Event {
    type V = EventView;

    open spec fn view(&self) -> EventView {
        match self {
            Event::Start => EventView::Start,
            Event::UserFound(x) => EventView::UserFound(x.deep_view()),
            Event::PasswordVerified(x) => EventView::PasswordVerified(*x),
            Event::PasswordHashed(x) => EventView::PasswordHashed(x@),
            Event::Executed { rows_affected } => EventView::Executed {
                rows_affected: *rows_affected,
            },
            Event::TokenSigned(x) => EventView::TokenSigned(x@),
            Event::UserStored(x) => EventView::UserStored(x@),
            Event::VpsFound(x) => EventView::VpsFound(x.deep_view()),
            Event::VpsStored(x) => EventView::VpsStored(x@),
            Event::ProviderServer(x) => EventView::ProviderServer(x@),
            Event::ProviderDone => EventView::ProviderDone,
            Event::Detached => EventView::Detached,
            Event::Slept => EventView::Slept,
            Event::Failed(x) => EventView::Failed(x@),
        }
    }
}

impl ActionView {
    /// Whether performing the action changes what the store holds.
    pub open spec fn writes_store(self) -> bool {
        ||| self is InsertLoginAttempt
        ||| self is InsertUser
        ||| self is InsertVps
        ||| self is RefreshVps
        ||| self is DeleteVps
    }

    /// Whether performing the action reaches the provider, at once or from
    /// a background task.
    pub open spec fn calls_provider(self) -> bool {
        self is Provider || self is DetachProvider
    }
}

/// Text of the error that answers an event which the state does not await.
pub open spec fn unexpected_event() -> AppErrorView {
    AppErrorView::InternalError("unexpected event"@)
}

/// The error that answers an event which the state does not await.
pub fn unexpected() -> (error: AppError)
    ensures
        error@ == unexpected_event(),
{
    AppError::InternalError("unexpected event".to_owned())
}

} // verus!
