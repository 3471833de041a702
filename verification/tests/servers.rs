use unified_panel::clock::Timestamp;
use unified_panel::models::server::{CreateServer, Server, ServerStatus, UpdateServer};
use unified_panel::services::server_service::{
    create_server, delete_server, get_server, new_server, update_server, update_server_at,
};
use unified_panel::utils::errors::AppError;

fn at(secs: i64) -> Timestamp {
    Timestamp { secs, nanos: 0 }
}

fn payload() -> CreateServer {
    CreateServer {
        name: "web-prod-01".to_string(),
        hostname: "web01.example.com".to_string(),
        ip_address: "198.51.100.4".to_string(),
        server_type: "dedicated".to_string(),
        location: Some("US-East".to_string()),
        cpu_cores: Some(8),
        ram_gb: Some(32),
        disk_gb: None,
        os: Some("Debian 12".to_string()),
    }
}

fn stored() -> Server {
    new_server(5, 6, payload(), at(100), at(100))
}

fn no_change() -> UpdateServer {
    UpdateServer {
        name: None,
        hostname: None,
        ip_address: None,
        status: None,
        location: None,
        cpu_cores: None,
        ram_gb: None,
        disk_gb: None,
        os: None,
    }
}

#[test]
fn a_new_server_is_provisioning() {
    assert_eq!(
        new_server(5, 6, payload(), at(100), at(101)),
        Server {
            id: 5,
            user_id: 6,
            name: "web-prod-01".to_string(),
            hostname: "web01.example.com".to_string(),
            ip_address: "198.51.100.4".to_string(),
            status: "provisioning".to_string(),
            server_type: "dedicated".to_string(),
            location: Some("US-East".to_string()),
            cpu_cores: Some(8),
            ram_gb: Some(32),
            disk_gb: None,
            os: Some("Debian 12".to_string()),
            created_at: at(100),
            updated_at: at(101),
        }
    );
    assert_eq!(stored().get_status(), ServerStatus::Provisioning);
}

#[test]
fn create_draws_an_identifier_and_reads_the_clock() {
    let first = create_server(6, payload());
    let second = create_server(6, payload());
    assert_ne!(first.id, second.id);
    assert_eq!((first.id >> 76) & 0xf, 4);
    assert_eq!((first.id >> 62) & 0x3, 2);
    assert!(first.created_at.secs > 1_600_000_000);
    assert!(first.created_at.secs <= first.updated_at.secs);
    assert_eq!(first, new_server(first.id, 6, payload(), first.created_at, first.updated_at));
}

#[test]
fn fetching_a_server() {
    assert_eq!(get_server(Some(stored())), Ok(stored()));
    assert_eq!(get_server(None), Err(AppError::NotFound("Server not found".to_string())));
}

#[test]
fn a_created_server_is_fetched_as_it_was_returned() {
    let created = create_server(6, payload());
    assert_eq!(get_server(Some(created.clone())), Ok(created));
}

#[test]
fn an_update_replaces_the_fields_given() {
    let update = UpdateServer {
        name: Some("web-prod-02".to_string()),
        hostname: Some("web02.example.com".to_string()),
        ip_address: Some("198.51.100.5".to_string()),
        status: Some(ServerStatus::Maintenance),
        location: Some("EU-Central".to_string()),
        cpu_cores: Some(16),
        ram_gb: Some(64),
        disk_gb: Some(500),
        os: Some("Debian 13".to_string()),
    };
    assert_eq!(
        update_server_at(stored(), update, at(200)),
        Server {
            id: 5,
            user_id: 6,
            name: "web-prod-02".to_string(),
            hostname: "web02.example.com".to_string(),
            ip_address: "198.51.100.5".to_string(),
            status: "maintenance".to_string(),
            server_type: "dedicated".to_string(),
            location: Some("EU-Central".to_string()),
            cpu_cores: Some(16),
            ram_gb: Some(64),
            disk_gb: Some(500),
            os: Some("Debian 13".to_string()),
            created_at: at(100),
            updated_at: at(200),
        }
    );
}

#[test]
fn an_update_keeps_the_fields_not_given() {
    assert_eq!(
        update_server_at(stored(), no_change(), at(200)),
        Server { updated_at: at(200), ..stored() }
    );
    let only_status = UpdateServer { status: Some(ServerStatus::Online), ..no_change() };
    assert_eq!(
        update_server_at(stored(), only_status, at(300)),
        Server { status: "online".to_string(), updated_at: at(300), ..stored() }
    );
    let only_disk = UpdateServer { disk_gb: Some(100), ..no_change() };
    assert_eq!(
        update_server_at(stored(), only_disk, at(300)),
        Server { disk_gb: Some(100), updated_at: at(300), ..stored() }
    );
}

#[test]
fn a_server_update_is_stamped_by_the_clock() {
    let merged = update_server(Some(stored()), no_change()).unwrap();
    assert!(merged.updated_at.secs > 1_600_000_000);
    assert!(merged.updated_at.nanos < 1_000_000_000);
    assert_eq!(merged, Server { updated_at: merged.updated_at, ..stored() });
    let renamed = UpdateServer { name: Some("db".to_string()), ..no_change() };
    let merged = update_server(Some(stored()), renamed).unwrap();
    assert_eq!(
        merged,
        Server { name: "db".to_string(), updated_at: merged.updated_at, ..stored() }
    );
}

#[test]
fn an_update_of_a_missing_server_is_not_found() {
    let missing = Err(AppError::NotFound("Server not found".to_string()));
    assert_eq!(update_server(None, no_change()), missing);
    let renamed = UpdateServer { name: Some("db".to_string()), ..no_change() };
    assert_eq!(update_server(None, renamed), missing);
}

#[test]
fn a_server_delete_that_touches_no_row_is_not_found() {
    assert_eq!(delete_server(0), Err(AppError::NotFound("Server not found".to_string())));
    assert_eq!(delete_server(1), Ok(()));
    assert_eq!(delete_server(u64::MAX), Ok(()));
}
