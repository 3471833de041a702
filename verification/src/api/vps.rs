//! Lifecycle actions on VPS instances: power on, power off, reboot.

use crate::clock::{clock_reading, Timestamp};
use crate::models::vps::{Vps, VpsView};
use crate::services::flow::{unexpected, unexpected_event, Action, ActionView, Event, EventView};
use crate::services::vps_service::{
    sync_step, sync_vps_status, vps_not_found, HetznerCall, HetznerCallView, SyncState,
    SyncStateView,
};
use crate::utils::errors::{AppError, AppErrorView};
use vstd::prelude::*;

verus! {

/// Seconds granted to the provider between an action and the read of its
/// effect. The provider acts asynchronously: the wait is a guess, and the
/// state read after it may still be the old one.
pub const SETTLE_SECS: u64 = 2;

/// A lifecycle action.
#[derive(Debug, Clone, Copy, PartialEq, Eq)]
pub enum PowerAction {
    On,
    Off,
    Reboot,
}

impl PowerAction {
    /// The provider's call that performs the action on an instance.
    pub open spec fn call(self, hetzner_id: i64) -> HetznerCallView {
        match self {
            PowerAction::On => HetznerCallView::PowerOn(hetzner_id),
            PowerAction::Off => HetznerCallView::PowerOff(hetzner_id),
            PowerAction::Reboot => HetznerCallView::Reboot(hetzner_id),
        }
    }

    fn provider_call(self, hetzner_id: i64) -> (call: HetznerCall)
        ensures
            call@ == self.call(hetzner_id),
    {
        match self {
            PowerAction::On => HetznerCall::PowerOn(hetzner_id),
            PowerAction::Off => HetznerCall::PowerOff(hetzner_id),
            PowerAction::Reboot => HetznerCall::Reboot(hetzner_id),
        }
    }
}

/// The error of an action on a record that is linked to no instance.
pub open spec fn not_linked() -> AppErrorView {
    AppErrorView::BadRequest("VPS not linked to Hetzner server"@)
}

/// Where a lifecycle action stands.
#[derive(Debug, PartialEq, Eq)]
pub enum PowerState {
    /// Not begun; `id` names the record of the instance.
    New { id: u128 },
    /// The record is being read.
    AwaitVps { id: u128 },
    /// The provider is taking the action.
    AwaitProvider { id: u128 },
    /// The provider is given time to act.
    AwaitSleep { id: u128 },
    /// The record is being refreshed from the provider.
    Syncing(SyncState),
    /// Over, with this result.
    Done(Result<Vps, AppError>),
}

/// Mathematical value of a [`PowerState`].
pub enum PowerStateView {
    New { id: u128 },
    AwaitVps { id: u128 },
    AwaitProvider { id: u128 },
    AwaitSleep { id: u128 },
    Syncing(SyncStateView),
    Done(Result<VpsView, AppErrorView>),
}

impl View for PowerState {
    type V = PowerStateView;

    open spec fn view(&self) -> PowerStateView {
        match self {
            PowerState::New { id } => PowerStateView::New { id: *id },
            PowerState::AwaitVps { id } => PowerStateView::AwaitVps { id: *id },
            PowerState::AwaitProvider { id } => PowerStateView::AwaitProvider { id: *id },
            PowerState::AwaitSleep { id } => PowerStateView::AwaitSleep { id: *id },
            PowerState::Syncing(x) => PowerStateView::Syncing(x@),
            PowerState::Done(x) => PowerStateView::Done(
                match x {
                    Ok(value) => Ok(value@),
                    Err(error) => Err(error@),
                },
            ),
        }
    }
}

/// How a step of the closing synchronisation shows as a step of the action:
/// its result ends the action, anything else goes on inside it.
pub open spec fn lift_sync(step: (SyncStateView, ActionView)) -> (PowerStateView, ActionView) {
    match step.0 {
        SyncStateView::Done(result) => (PowerStateView::Done(result), ActionView::Finish),
        _ => (PowerStateView::Syncing(step.0), step.1),
    }
}

/// One step of a lifecycle action; `now` is the clock's reading, used where
/// the closing synchronisation stamps the record.
///
/// The record is read. One that is linked to no instance is refused as a bad
/// request, and the provider is not called. Otherwise the provider is asked
/// to act, [`SETTLE_SECS`] seconds are waited, and the record is refreshed as
/// by a status synchronisation, whose result is the action's.
pub open spec fn power_step(
    action: PowerAction,
    state: PowerStateView,
    event: EventView,
    now: Timestamp,
) -> (PowerStateView, ActionView) {
    match (state, event) {
        (PowerStateView::Done(result), _) => (PowerStateView::Done(result), ActionView::Finish),
        (PowerStateView::Syncing(inner), _) => lift_sync(sync_step(inner, event, now)),
        (_, EventView::Failed(error)) => (PowerStateView::Done(Err(error)), ActionView::Finish),
        (PowerStateView::New { id }, EventView::Start) => (
            PowerStateView::AwaitVps { id },
            ActionView::FindVps { id },
        ),
        (PowerStateView::AwaitVps { id }, EventView::VpsFound(None)) => (
            PowerStateView::Done(Err(vps_not_found())),
            ActionView::Finish,
        ),
        (PowerStateView::AwaitVps { id }, EventView::VpsFound(Some(vps))) => match vps.hetzner_id {
            Some(hetzner_id) => (
                PowerStateView::AwaitProvider { id },
                ActionView::Provider(action.call(hetzner_id)),
            ),
            None => (PowerStateView::Done(Err(not_linked())), ActionView::Finish),
        },
        (PowerStateView::AwaitProvider { id }, EventView::ProviderDone) => (
            PowerStateView::AwaitSleep { id },
            ActionView::Sleep { secs: SETTLE_SECS },
        ),
        (PowerStateView::AwaitSleep { id }, EventView::Slept) => lift_sync(
            sync_step(SyncStateView::New { id }, EventView::Start, now),
        ),
        _ => (PowerStateView::Done(Err(unexpected_event())), ActionView::Finish),
    }
}

fn power_failed(error: AppError) -> (step: (PowerState, Action))
    ensures
        step.0@ == PowerStateView::Done(Err(error@)),
        step.1@ == ActionView::Finish,
{
    (PowerState::Done(Err(error)), Action::Finish)
}

fn lift(step: (SyncState, Action)) -> (lifted: (PowerState, Action))
    ensures
        (lifted.0@, lifted.1@) == lift_sync((step.0@, step.1@)),
{
    match step.0 {
        SyncState::Done(result) => (PowerState::Done(result), Action::Finish),
        inner => (PowerState::Syncing(inner), step.1),
    }
}

fn power(action: PowerAction, state: PowerState, event: Event) -> (step: (PowerState, Action))
    ensures
        exists|now: Timestamp| #[trigger]
            clock_reading(now) && (step.0@, step.1@) == power_step(action, state@, event@, now),
{
    let ghost epoch = Timestamp { secs: 0, nanos: 0 };
    let ghost before = state@;
    let ghost given = event@;
    let step = match state {
        PowerState::Done(result) => (PowerState::Done(result), Action::Finish),
        PowerState::Syncing(inner) => {
            let ghost inner_before = inner@;
            let synced = sync_vps_status(inner, event);
            let lifted = lift(synced);
            proof {
                let now = choose|now: Timestamp| #[trigger]
                    clock_reading(now) && (synced.0@, synced.1@) == sync_step(
                        inner_before,
                        given,
                        now,
                    );
                assert(clock_reading(now) && (lifted.0@, lifted.1@) == power_step(
                    action,
                    before,
                    given,
                    now,
                ));
            }
            return lifted;
        },
        PowerState::New { id } => match event {
            Event::Failed(error) => power_failed(error),
            Event::Start => (PowerState::AwaitVps { id }, Action::FindVps { id }),
            _ => power_failed(unexpected()),
        },
        PowerState::AwaitVps { id } => match event {
            Event::Failed(error) => power_failed(error),
            Event::VpsFound(None) => power_failed(
                AppError::NotFound("VPS not found".to_owned()),
            ),
            Event::VpsFound(Some(vps)) => match vps.hetzner_id {
                Some(hetzner_id) => (
                    PowerState::AwaitProvider { id },
                    Action::Provider(action.provider_call(hetzner_id)),
                ),
                None => power_failed(
                    AppError::BadRequest("VPS not linked to Hetzner server".to_owned()),
                ),
            },
            _ => power_failed(unexpected()),
        },
        PowerState::AwaitProvider { id } => match event {
            Event::Failed(error) => power_failed(error),
            Event::ProviderDone => (
                PowerState::AwaitSleep { id },
                Action::Sleep { secs: SETTLE_SECS },
            ),
            _ => power_failed(unexpected()),
        },
        PowerState::AwaitSleep { id } => match event {
            Event::Failed(error) => power_failed(error),
            Event::Slept => (
                PowerState::Syncing(SyncState::AwaitVps { id }),
                Action::FindVps { id },
            ),
            _ => power_failed(unexpected()),
        },
    };
    assert(clock_reading(epoch) && (step.0@, step.1@) == power_step(
        action,
        before,
        given,
        epoch,
    ));
    step
}

/// Powers an instance on and refreshes its record: one step of it. Begin
/// with [`PowerState::New`] and [`Event::Start`].
pub fn power_on_vps(state: PowerState, event: Event) -> (step: (PowerState, Action))
    ensures
        exists|now: Timestamp| #[trigger]
            clock_reading(now) && (step.0@, step.1@) == power_step(
                PowerAction::On,
                state@,
                event@,
                now,
            ),
{
    power(PowerAction::On, state, event)
}

/// Powers an instance off and refreshes its record: one step of it. Begin
/// with [`PowerState::New`] and [`Event::Start`].
pub fn power_off_vps(state: PowerState, event: Event) -> (step: (PowerState, Action))
    ensures
        exists|now: Timestamp| #[trigger]
            clock_reading(now) && (step.0@, step.1@) == power_step(
                PowerAction::Off,
                state@,
                event@,
                now,
            ),
{
    power(PowerAction::Off, state, event)
}

/// Reboots an instance and refreshes its record: one step of it. Begin with
/// [`PowerState::New`] and [`Event::Start`].
pub fn reboot_vps(state: PowerState, event: Event) -> (step: (PowerState, Action))
    ensures
        exists|now: Timestamp| #[trigger]
            clock_reading(now) && (step.0@, step.1@) == power_step(
                PowerAction::Reboot,
                state@,
                event@,
                now,
            ),
{
    power(PowerAction::Reboot, state, event)
}

/// A failure ends a lifecycle action with that very error, wherever it
/// stands: before the provider has acted, while it is given time, and during
/// the refresh that follows.
pub proof fn lemma_failures_propagate(
    action: PowerAction,
    state: PowerStateView,
    error: AppErrorView,
    now: Timestamp,
)
    requires
        !(state is Done),
        state matches PowerStateView::Syncing(inner) ==> !(inner is Done),
    ensures
        power_step(action, state, EventView::Failed(error), now) == (
            PowerStateView::Done(Err(error)),
            ActionView::Finish,
        ),
{
}

/// A lifecycle action on a record that is linked to no instance is refused
/// as a bad request, and none of its steps calls the provider.
pub proof fn lemma_power_unlinked(action: PowerAction, id: u128, vps: VpsView, now: Timestamp)
    requires
        vps.hetzner_id is None,
    ensures
        ({
            let begun = power_step(action, PowerStateView::New { id }, EventView::Start, now);
            let found = power_step(action, begun.0, EventView::VpsFound(Some(vps)), now);
            &&& begun == (PowerStateView::AwaitVps { id }, ActionView::FindVps { id })
            &&& found == (PowerStateView::Done(Err(not_linked())), ActionView::Finish)
            &&& not_linked() is BadRequest
            &&& !begun.1.calls_provider()
            &&& !found.1.calls_provider()
        }),
{
}

} // verus!
