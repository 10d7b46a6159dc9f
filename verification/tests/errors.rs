use event_groups::error::{AppError, ErrorBody};
use event_groups::text::{
    event_not_found_text, group_closed_text, group_full_text, group_not_found_text,
    member_not_found_text,
};

#[test]
fn not_found_maps_to_404() {
    let e = AppError::NotFound("Event with ID x not found".to_string());
    assert_eq!(e.status_code(), 404);
    assert_eq!(e.client_message(), "Event with ID x not found");
    assert!(!e.is_server_fault());
}

#[test]
fn bad_request_maps_to_400() {
    let e = AppError::BadRequest("Group size limit of 2 has been reached".to_string());
    assert_eq!(e.status_code(), 400);
    assert_eq!(e.client_message(), "Group size limit of 2 has been reached");
}

#[test]
fn validation_error_maps_to_422() {
    let e = AppError::ValidationError("bad shape".to_string());
    assert_eq!(e.status_code(), 422);
    assert_eq!(e.client_message(), "bad shape");
}

#[test]
fn database_error_maps_to_500_and_hides_detail() {
    let e = AppError::Database("disk I/O error at page 7".to_string());
    assert_eq!(e.status_code(), 500);
    assert_eq!(e.client_message(), "Database error occurred");
    assert!(e.is_server_fault());
    assert_eq!(e.description(), "Database error: disk I/O error at page 7");
}

#[test]
fn internal_error_maps_to_500_and_hides_detail() {
    let e = AppError::InternalServerError("Failed to connect to database: refused".to_string());
    assert_eq!(e.status_code(), 500);
    assert_eq!(e.client_message(), "Internal server error");
    assert!(e.is_server_fault());
    assert_eq!(
        e.description(),
        "Internal server error: Failed to connect to database: refused"
    );
}

#[test]
fn descriptions_name_the_kind_of_failure() {
    assert_eq!(AppError::NotFound("x".to_string()).description(), "Not found: x");
    assert_eq!(AppError::BadRequest("x".to_string()).description(), "Bad request: x");
    assert_eq!(
        AppError::ValidationError("x".to_string()).description(),
        "Validation error: x"
    );
}

#[test]
fn body_carries_status_and_client_message() {
    let body = AppError::NotFound("Group with ID 9 not found".to_string()).body();
    assert_eq!(
        body,
        ErrorBody { status: 404, message: "Group with ID 9 not found".to_string() }
    );
    let hidden = AppError::Database("secret detail".to_string()).body();
    assert_eq!(
        hidden,
        ErrorBody { status: 500, message: "Database error occurred".to_string() }
    );
}

#[test]
fn cloned_error_is_equal() {
    let e = AppError::BadRequest("no".to_string());
    assert_eq!(e.clone(), e);
}

#[test]
fn messages_spell_out_ids_in_decimal() {
    assert_eq!(event_not_found_text("abc-1"), "Event with ID abc-1 not found");
    assert_eq!(group_not_found_text(42), "Group with ID 42 not found");
    assert_eq!(group_not_found_text(0), "Group with ID 0 not found");
    assert_eq!(group_not_found_text(-7), "Group with ID -7 not found");
    assert_eq!(member_not_found_text(1005), "Member with ID 1005 not found");
    assert_eq!(
        group_closed_text(3),
        "Group with ID 3 does not accept new members"
    );
    assert_eq!(group_full_text(2), "Group size limit of 2 has been reached");
    assert_eq!(
        group_full_text(i64::MIN),
        "Group size limit of -9223372036854775808 has been reached"
    );
    assert_eq!(
        group_not_found_text(i64::MAX),
        "Group with ID 9223372036854775807 not found"
    );
}
