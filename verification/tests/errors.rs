use unified_panel::utils::errors::{AppError, ErrorResponse};

#[test]
fn each_kind_has_its_status_code() {
    assert_eq!(AppError::BadRequest("x".to_string()).status_code(), 400);
    assert_eq!(AppError::Unauthorized("x".to_string()).status_code(), 401);
    assert_eq!(AppError::NotFound("x".to_string()).status_code(), 404);
    assert_eq!(AppError::InternalError("x".to_string()).status_code(), 500);
    assert_eq!(AppError::DatabaseError("x".to_string()).status_code(), 500);
}

#[test]
fn the_response_carries_the_message() {
    assert_eq!(
        AppError::BadRequest("Email already registered".to_string()).into_response(),
        ErrorResponse { status: 400, error: "Email already registered".to_string() }
    );
    assert_eq!(
        AppError::Unauthorized("Invalid credentials".to_string()).into_response(),
        ErrorResponse { status: 401, error: "Invalid credentials".to_string() }
    );
    assert_eq!(
        AppError::NotFound("VPS not found".to_string()).into_response(),
        ErrorResponse { status: 404, error: "VPS not found".to_string() }
    );
    assert_eq!(
        AppError::InternalError("Hetzner API error 500: boom".to_string()).into_response(),
        ErrorResponse { status: 500, error: "Hetzner API error 500: boom".to_string() }
    );
}

#[test]
fn a_store_failure_does_not_leak_its_detail() {
    let response =
        AppError::DatabaseError("relation \"users\" does not exist".to_string()).into_response();
    assert_eq!(response, ErrorResponse { status: 500, error: "Database error".to_string() });
}

#[test]
fn rendering_labels_the_kind() {
    assert_eq!(AppError::BadRequest("a".to_string()).to_string(), "Bad Request: a");
    assert_eq!(AppError::Unauthorized("b".to_string()).to_string(), "Unauthorized: b");
    assert_eq!(AppError::NotFound("c".to_string()).to_string(), "Not Found: c");
    assert_eq!(AppError::InternalError("d".to_string()).to_string(), "Internal Error: d");
    assert_eq!(AppError::DatabaseError("e".to_string()).to_string(), "Database Error: e");
    assert_eq!(AppError::NotFound(String::new()).to_string(), "Not Found: ");
}
