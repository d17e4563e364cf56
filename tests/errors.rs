use cloud::{AppError, AppErrorExt, ConnectRequest};

#[test]
fn duplicate_id_is_a_bad_request() {
    let e = AppError::DuplicateId;
    assert_eq!(e.status_code(), 400);
    assert_eq!(e.message(), "The ID already exists");
}

#[test]
fn internal_errors_carry_their_cause() {
    let r: Result<u8, String> = Err("link task gone".to_string());
    let e = r.map_app_err().unwrap_err();
    assert_eq!(e.status_code(), 500);
    assert_eq!(e.message(), "An internal server error occurred: link task gone");
    let ok: Result<u8, String> = Ok(3);
    assert_eq!(ok.map_app_err().unwrap(), 3);
    let q = ConnectRequest { id: "alice".to_string() };
    assert_eq!(q.id, "alice");
}
