use unified_panel::models::vps::HetznerCreateServerRequest;
use unified_panel::services::vps_service::{
    HetznerCall, HetznerClient, HttpMethod, HttpReply, HttpRequest,
};
use unified_panel::utils::errors::AppError;

fn create_body() -> HetznerCreateServerRequest {
    HetznerCreateServerRequest {
        name: "vm-1".to_string(),
        server_type: "cx11".to_string(),
        location: "fsn1".to_string(),
        image: "debian-12".to_string(),
        ssh_keys: Some(vec!["key-a".to_string(), "key-b".to_string()]),
        user_data: None,
        start_after_create: true,
    }
}

fn request(method: HttpMethod, path: &str, body: Option<HetznerCreateServerRequest>) -> HttpRequest {
    HttpRequest {
        method,
        url: format!("https://api.hetzner.cloud/v1{}", path),
        authorization: "Bearer token-123".to_string(),
        body,
    }
}

fn client() -> HetznerClient {
    HetznerClient::new("token-123".to_string())
}

#[test]
fn create_posts_the_body_to_the_collection() {
    assert_eq!(
        client().create_server(create_body()),
        request(HttpMethod::Post, "/servers", Some(create_body()))
    );
}

#[test]
fn get_reads_the_instance() {
    assert_eq!(client().get_server(500), request(HttpMethod::Get, "/servers/500", None));
}

#[test]
fn list_reads_the_collection() {
    assert_eq!(client().list_servers(), request(HttpMethod::Get, "/servers", None));
}

#[test]
fn delete_removes_the_instance() {
    assert_eq!(client().delete_server(42), request(HttpMethod::Delete, "/servers/42", None));
}

#[test]
fn power_actions_post_to_the_action_endpoints() {
    assert_eq!(
        client().power_on(7),
        request(HttpMethod::Post, "/servers/7/actions/poweron", None)
    );
    assert_eq!(
        client().power_off(7),
        request(HttpMethod::Post, "/servers/7/actions/poweroff", None)
    );
    assert_eq!(client().reboot(7), request(HttpMethod::Post, "/servers/7/actions/reboot", None));
}

#[test]
fn identifiers_are_written_in_decimal() {
    assert_eq!(client().get_server(0).url, "https://api.hetzner.cloud/v1/servers/0");
    assert_eq!(client().get_server(-3).url, "https://api.hetzner.cloud/v1/servers/-3");
    assert_eq!(
        client().reboot(i64::MAX).url,
        "https://api.hetzner.cloud/v1/servers/9223372036854775807/actions/reboot"
    );
    assert_eq!(
        client().delete_server(i64::MIN).url,
        "https://api.hetzner.cloud/v1/servers/-9223372036854775808"
    );
}

#[test]
fn every_request_presents_the_token() {
    let client = HetznerClient::new("abc".to_string());
    for http in [
        client.create_server(create_body()),
        client.get_server(1),
        client.list_servers(),
        client.delete_server(1),
        client.power_on(1),
        client.power_off(1),
        client.reboot(1),
    ] {
        assert_eq!(http.authorization, "Bearer abc");
    }
    assert_eq!(HetznerClient::new(String::new()).list_servers().authorization, "Bearer ");
}

#[test]
fn prepare_agrees_with_the_methods() {
    let c = client();
    assert_eq!(c.prepare(HetznerCall::CreateServer(create_body())), c.create_server(create_body()));
    assert_eq!(c.prepare(HetznerCall::GetServer(9)), c.get_server(9));
    assert_eq!(c.prepare(HetznerCall::ListServers), c.list_servers());
    assert_eq!(c.prepare(HetznerCall::DeleteServer(9)), c.delete_server(9));
    assert_eq!(c.prepare(HetznerCall::PowerOn(9)), c.power_on(9));
    assert_eq!(c.prepare(HetznerCall::PowerOff(9)), c.power_off(9));
    assert_eq!(c.prepare(HetznerCall::Reboot(9)), c.reboot(9));
}

#[test]
fn only_the_two_hundreds_are_a_success() {
    assert!(!HetznerClient::is_success(0));
    assert!(!HetznerClient::is_success(199));
    assert!(HetznerClient::is_success(200));
    assert!(HetznerClient::is_success(201));
    assert!(HetznerClient::is_success(204));
    assert!(HetznerClient::is_success(299));
    assert!(!HetznerClient::is_success(300));
    assert!(!HetznerClient::is_success(401));
    assert!(!HetznerClient::is_success(429));
    assert!(!HetznerClient::is_success(500));
    assert!(!HetznerClient::is_success(u16::MAX));
}

fn received<T>(code: u16, status: &str, text: &str, decoded: Result<T, &str>) -> HttpReply<T> {
    HttpReply::Received {
        code,
        status: status.to_string(),
        text: text.to_string(),
        decoded: decoded.map_err(|d| d.to_string()),
    }
}

fn internal<T>(message: &str) -> Result<T, AppError> {
    Err(AppError::InternalError(message.to_string()))
}

#[test]
fn a_decoded_body_of_a_success_is_the_result() {
    assert_eq!(HetznerClient::response(received(200, "200 OK", "", Ok(17u32))), Ok(17u32));
    assert_eq!(HetznerClient::response(received(201, "201 Created", "", Ok(()))), Ok(()));
    assert_eq!(HetznerClient::response(received(299, "299", "", Ok(5u8))), Ok(5u8));
}

#[test]
fn a_request_that_got_no_response_is_an_internal_error() {
    assert_eq!(
        HetznerClient::response::<u32>(HttpReply::Unsent { detail: "connection refused".to_string() }),
        internal("Hetzner API request failed: connection refused")
    );
}

#[test]
fn a_status_outside_the_two_hundreds_is_an_internal_error_whatever_the_body() {
    assert_eq!(
        HetznerClient::response::<u32>(received(
            429,
            "429 Too Many Requests",
            "{\"error\":\"rate_limit_exceeded\"}",
            Err(""),
        )),
        internal("Hetzner API error 429 Too Many Requests: {\"error\":\"rate_limit_exceeded\"}")
    );
    assert_eq!(
        HetznerClient::response::<u32>(received(401, "401 Unauthorized", "", Err(""))),
        internal("Hetzner API error 401 Unauthorized: ")
    );
    assert_eq!(
        HetznerClient::response(received(500, "500 Internal Server Error", "boom", Ok(17u32))),
        internal("Hetzner API error 500 Internal Server Error: boom")
    );
    assert_eq!(
        HetznerClient::response(received(199, "199", "", Ok(17u32))),
        internal("Hetzner API error 199: ")
    );
    assert_eq!(
        HetznerClient::response(received(300, "300 Multiple Choices", "", Ok(17u32))),
        internal("Hetzner API error 300 Multiple Choices: ")
    );
    assert_eq!(
        HetznerClient::response(received(404, "404 Not Found", "no such server", Ok(()))),
        internal("Hetzner API error 404 Not Found: no such server")
    );
}

#[test]
fn a_body_that_does_not_decode_is_an_internal_error() {
    assert_eq!(
        HetznerClient::response::<u32>(received(
            200,
            "200 OK",
            "",
            Err("missing field `server`"),
        )),
        internal("Failed to parse Hetzner response: missing field `server`")
    );
    assert_eq!(
        HetznerClient::response::<u32>(received(204, "204 No Content", "ignored", Err(""))),
        internal("Failed to parse Hetzner response: ")
    );
}
