//! Operations on server records.

use crate::clock::{clock_reading, now, Timestamp};
use crate::ident::{is_random_id, new_id};
use crate::models::server::{
    CreateServer, CreateServerView, Server, ServerStatus, ServerView, UpdateServer,
    UpdateServerView,
};
use crate::utils::errors::{AppError, AppErrorView};
use vstd::prelude::*;
use vstd::string::*;

verus! {

/// The error of a lookup or a delete that matched no server.
pub open spec fn server_not_found() -> AppErrorView {
    AppErrorView::NotFound("Server not found"@)
}

fn not_found() -> (error: AppError)
    ensures
        error@ == server_not_found(),
{
    AppError::NotFound("Server not found".to_owned())
}

/// What a lookup amounts to: the row found, or not found.
pub open spec fn fetched_server(found: Option<ServerView>) -> Result<ServerView, AppErrorView> {
    match found {
        Some(server) => Ok(server),
        None => Err(server_not_found()),
    }
}

/// What a delete amounts to, by the number of rows it touched.
pub open spec fn deleted_server(rows_affected: u64) -> Result<(), AppErrorView> {
    if rows_affected == 0 {
        Err(server_not_found())
    } else {
        Ok(())
    }
}

/// The record of a newly described server: the payload's fields, the owner,
/// and the status `provisioning`.
pub open spec fn server_of_payload(
    id: u128,
    user_id: u128,
    payload: CreateServerView,
    created_at: Timestamp,
    updated_at: Timestamp,
) -> ServerView {
    ServerView {
        id,
        user_id,
        name: payload.name,
        hostname: payload.hostname,
        ip_address: payload.ip_address,
        status: ServerStatus::Provisioning.name(),
        server_type: payload.server_type,
        location: payload.location,
        cpu_cores: payload.cpu_cores,
        ram_gb: payload.ram_gb,
        disk_gb: payload.disk_gb,
        os: payload.os,
        created_at,
        updated_at,
    }
}

/// `new` where the update gives a value, `old` where it gives none.
pub open spec fn replaced<T>(old: T, new: Option<T>) -> T {
    match new {
        Some(value) => value,
        None => old,
    }
}

/// `new` where the update gives a value, `old` where it gives none: an
/// update cannot clear a field.
pub open spec fn replaced_optional<T>(old: Option<T>, new: Option<T>) -> Option<T> {
    match new {
        Some(value) => Some(value),
        None => old,
    }
}

/// A server record after an update: each field replaced where the payload
/// gives it, the time of change set, and identifier, owner, type and time of
/// creation kept.
pub open spec fn updated_server(
    server: ServerView,
    payload: UpdateServerView,
    updated_at: Timestamp,
) -> ServerView {
    ServerView {
        name: replaced(server.name, payload.name),
        hostname: replaced(server.hostname, payload.hostname),
        ip_address: replaced(server.ip_address, payload.ip_address),
        status: match payload.status {
            Some(status) => status.name(),
            None => server.status,
        },
        location: replaced_optional(server.location, payload.location),
        cpu_cores: replaced_optional(server.cpu_cores, payload.cpu_cores),
        ram_gb: replaced_optional(server.ram_gb, payload.ram_gb),
        disk_gb: replaced_optional(server.disk_gb, payload.disk_gb),
        os: replaced_optional(server.os, payload.os),
        updated_at,
        ..server
    }
}

/// What an update amounts to, as of `updated_at`: not found where the lookup
/// found no record, and the record with the update applied where it found
/// one.
pub open spec fn server_update(
    found: Option<ServerView>,
    payload: UpdateServerView,
    updated_at: Timestamp,
) -> Result<ServerView, AppErrorView> {
    match found {
        Some(server) => Ok(updated_server(server, payload, updated_at)),
        None => Err(server_not_found()),
    }
}

/// The server that a lookup found, or `NotFound` where it found none.
pub fn get_server(found: Option<Server>) -> (outcome: Result<Server, AppError>)
    ensures
        match fetched_server(found.deep_view()) {
            Ok(server) => outcome is Ok && outcome->Ok_0@ == server,
            Err(error) => outcome is Err && outcome->Err_0@ == error,
        },
        found matches Some(server) ==> outcome == Ok::<Server, AppError>(server),
{
    match found {
        Some(server) => Ok(server),
        None => Err(not_found()),
    }
}

/// The record of a newly described server.
pub fn new_server(
    id: u128,
    user_id: u128,
    payload: CreateServer,
    created_at: Timestamp,
    updated_at: Timestamp,
) -> (server: Server)
    ensures
        server@ == server_of_payload(id, user_id, payload@, created_at, updated_at),
{
    Server {
        id,
        user_id,
        name: payload.name,
        hostname: payload.hostname,
        ip_address: payload.ip_address,
        status: ServerStatus::Provisioning.as_str().to_owned(),
        server_type: payload.server_type,
        location: payload.location,
        cpu_cores: payload.cpu_cores,
        ram_gb: payload.ram_gb,
        disk_gb: payload.disk_gb,
        os: payload.os,
        created_at,
        updated_at,
    }
}

/// The row to insert for a newly described server: a fresh identifier, the
/// payload's fields, status `provisioning`, and the clock's readings as
/// times of creation and change. The panel records the server; it provisions
/// nothing.
pub fn create_server(user_id: u128, payload: CreateServer) -> (server: Server)
    ensures
        is_random_id(server.id),
        clock_reading(server.created_at),
        clock_reading(server.updated_at),
        server@ == server_of_payload(
            server.id,
            user_id,
            payload@,
            server.created_at,
            server.updated_at,
        ),
{
    let id = new_id();
    let created_at = now();
    let updated_at = now();
    new_server(id, user_id, payload, created_at, updated_at)
}

/// Applies an update to a server record, as of `updated_at`.
pub fn update_server_at(
    server: Server,
    payload: UpdateServer,
    updated_at: Timestamp,
) -> (merged: Server)
    ensures
        merged@ == updated_server(server@, payload@, updated_at),
{
    let mut merged = server;
    match payload.name {
        Some(name) => {
            merged.name = name;
        },
        None => {},
    }
    match payload.hostname {
        Some(hostname) => {
            merged.hostname = hostname;
        },
        None => {},
    }
    match payload.ip_address {
        Some(ip_address) => {
            merged.ip_address = ip_address;
        },
        None => {},
    }
    match payload.status {
        Some(status) => {
            merged.status = status.as_str().to_owned();
        },
        None => {},
    }
    match payload.location {
        Some(location) => {
            merged.location = Some(location);
        },
        None => {},
    }
    match payload.cpu_cores {
        Some(cpu_cores) => {
            merged.cpu_cores = Some(cpu_cores);
        },
        None => {},
    }
    match payload.ram_gb {
        Some(ram_gb) => {
            merged.ram_gb = Some(ram_gb);
        },
        None => {},
    }
    match payload.disk_gb {
        Some(disk_gb) => {
            merged.disk_gb = Some(disk_gb);
        },
        None => {},
    }
    match payload.os {
        Some(os) => {
            merged.os = Some(os);
        },
        None => {},
    }
    merged.updated_at = updated_at;
    merged
}

/// Updates a server, given what the lookup of it found. A server that does
/// not exist is reported as not found, and nothing is to be written.
/// Otherwise the result is the row to write back: the record with the update
/// applied, stamped with the clock's reading. Two updates of one record that
/// are read before either is written do not see each other: the later write
/// wins field by field.
pub fn update_server(
    found: Option<Server>,
    payload: UpdateServer,
) -> (outcome: Result<Server, AppError>)
    ensures
        exists|updated_at: Timestamp| #[trigger]
            clock_reading(updated_at) && match server_update(
                found.deep_view(),
                payload@,
                updated_at,
            ) {
                Ok(merged) => outcome is Ok && outcome->Ok_0@ == merged,
                Err(error) => outcome is Err && outcome->Err_0@ == error,
            },
{
    match found {
        Some(server) => {
            let updated_at = now();
            let merged = update_server_at(server, payload, updated_at);
            assert(clock_reading(updated_at) && server_update(
                found.deep_view(),
                payload@,
                updated_at,
            ) == Ok::<ServerView, AppErrorView>(merged@));
            Ok(merged)
        },
        None => {
            let ghost epoch = Timestamp { secs: 0, nanos: 0 };
            let error = not_found();
            assert(clock_reading(epoch) && server_update(
                found.deep_view(),
                payload@,
                epoch,
            ) == Err::<ServerView, AppErrorView>(error@));
            Err(error)
        },
    }
}

/// The result of a server's delete: `NotFound` where it touched no row.
pub fn delete_server(rows_affected: u64) -> (outcome: Result<(), AppError>)
    ensures
        match deleted_server(rows_affected) {
            Ok(_) => outcome is Ok,
            Err(error) => outcome is Err && outcome->Err_0@ == error,
        },
{
    if rows_affected == 0 {
        Err(not_found())
    } else {
        Ok(())
    }
}

/// Updating a server that does not exist is reported as not found, whatever
/// the update asks for and whenever it is made; updating one that exists
/// succeeds.
pub proof fn lemma_update_missing(
    server: ServerView,
    payload: UpdateServerView,
    updated_at: Timestamp,
)
    ensures
        server_update(None, payload, updated_at) == Err::<ServerView, AppErrorView>(
            server_not_found(),
        ),
        server_not_found() is NotFound,
        server_update(Some(server), payload, updated_at) is Ok,
{
}

/// Deleting a server that does not exist is reported as not found, never as
/// a success; deleting one that exists succeeds.
pub proof fn lemma_delete_missing(rows_affected: u64)
    ensures
        deleted_server(0) == Err::<(), AppErrorView>(server_not_found()),
        rows_affected > 0 ==> deleted_server(rows_affected) == Ok::<(), AppErrorView>(()),
{
}

/// A server that the store returns for the identifier under which it was
/// just stored is fetched as the very record that the store returned; and an
/// update that gives no field changes nothing but the time of change.
pub proof fn lemma_server_read_after_write(stored: ServerView, updated_at: Timestamp)
    ensures
        fetched_server(Some(stored)) == Ok::<ServerView, AppErrorView>(stored),
        updated_server(
            stored,
            UpdateServerView {
                name: None,
                hostname: None,
                ip_address: None,
                status: None,
                location: None,
                cpu_cores: None,
                ram_gb: None,
                disk_gb: None,
                os: None,
            },
            updated_at,
        ) == (ServerView { updated_at, ..stored }),
{
}

} // verus!
