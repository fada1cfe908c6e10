use mc_dashboard::api::{build_error, network_error, response_outcome, ApiError, ErrorResponse};
use mc_dashboard::notice::{added_notice, removed_notice, switched_notice, Notice, NoticeKind};

fn req(status: u16, message: &str, is_structured: bool) -> Result<String, ApiError> {
    Err(ApiError::Request { status, message: message.to_string(), is_structured })
}

fn notice(message: &str, kind: NoticeKind) -> Notice {
    Notice { message: message.to_string(), kind }
}

#[test]
fn error_descriptions() {
    assert_eq!(ApiError::Network("down".into()).describe(), "Network Error: down");
    assert_eq!(ApiError::Parse("bad".into()).describe(), "Parsing Error: bad");
    let e = ApiError::Request { status: 404, message: "missing".into(), is_structured: false };
    assert_eq!(e.describe(), "HTTP Error: 404 - missing");
    let e = ApiError::Request { status: 404, message: "missing".into(), is_structured: true };
    assert_eq!(e.describe(), "missing");
}

#[test]
fn transport_errors() {
    assert_eq!(network_error("timeout"), ApiError::Network("Network Error: timeout".into()));
    assert_eq!(
        build_error("bad header"),
        ApiError::Request { status: 0, message: "Failed to build request: bad header".into(), is_structured: false }
    );
}

#[test]
fn post_outcomes() {
    assert_eq!(response_outcome(true, 200, Ok("done".into()), None), Ok("done".to_string()));
    assert_eq!(
        response_outcome(true, 200, Err("cut".into()), None),
        Err(ApiError::Parse("Failed to read response: cut".into()))
    );
    let explained = ErrorResponse { success: false, message: "exists".into(), timestamp: None };
    assert_eq!(response_outcome(false, 409, Ok("{..}".into()), Some(explained)), req(409, "exists", true));
    assert_eq!(response_outcome(false, 500, Ok("oops".into()), None), req(500, "oops", false));
    assert_eq!(response_outcome(false, 502, Err("cut".into()), None), req(502, "Unknown error", false));
}

#[test]
fn added_notices() {
    assert_eq!(added_notice(&Ok(String::new())), notice("Server added successfully!", NoticeKind::Success));
    assert_eq!(
        added_notice(&req(409, "Server survival already exists", true)),
        notice("A server with this name already exists. Please choose a different name.", NoticeKind::Warning)
    );
    assert_eq!(added_notice(&req(409, "conflict", true)), notice("conflict", NoticeKind::Error));
    assert_eq!(
        added_notice(&req(400, "x", true)),
        notice("Invalid server configuration. Please check your inputs.", NoticeKind::Warning)
    );
    assert_eq!(
        added_notice(&req(500, "x", false)),
        notice("Server error occurred. Please try again later.", NoticeKind::Error)
    );
    assert_eq!(added_notice(&req(418, "teapot", true)), notice("teapot", NoticeKind::Error));
    assert_eq!(added_notice(&req(418, "teapot", false)), notice("HTTP Error 418: teapot", NoticeKind::Error));
    assert_eq!(
        added_notice(&Err(ApiError::Network("x".into()))),
        notice("Network connection failed. Please check your connection.", NoticeKind::Error)
    );
    assert_eq!(
        added_notice(&Err(ApiError::Parse("x".into()))),
        notice("Failed to process server response.", NoticeKind::Error)
    );
}

#[test]
fn switched_notices() {
    assert_eq!(switched_notice(true, &Ok(String::new())), notice("Server enabled successfully!", NoticeKind::Success));
    assert_eq!(switched_notice(false, &Ok(String::new())), notice("Server disabled successfully!", NoticeKind::Success));
    let gone = notice("Server not found. It may have been removed.", NoticeKind::Warning);
    assert_eq!(switched_notice(true, &req(404, "x", true)), gone);
    assert_eq!(switched_notice(false, &req(404, "x", false)), gone);
    assert_eq!(
        switched_notice(true, &req(500, "x", false)),
        notice("Failed to enable server. Please try again.", NoticeKind::Error)
    );
    assert_eq!(
        switched_notice(false, &Err(ApiError::Network("x".into()))),
        notice("Failed to disable server. Please try again.", NoticeKind::Error)
    );
}

#[test]
fn removed_notices() {
    assert_eq!(removed_notice(&Ok(String::new())), notice("Server deleted successfully!", NoticeKind::Success));
    assert_eq!(
        removed_notice(&req(404, "x", true)),
        notice("Server not found. It may have already been removed.", NoticeKind::Warning)
    );
    assert_eq!(
        removed_notice(&req(403, "x", true)),
        notice("Permission denied. Unable to delete this server.", NoticeKind::Error)
    );
    let failed = notice("Failed to delete server. Please try again.", NoticeKind::Error);
    assert_eq!(removed_notice(&req(500, "x", true)), failed);
    assert_eq!(removed_notice(&Err(ApiError::Parse("x".into()))), failed);
}

#[test]
fn notice_kinds() {
    assert_eq!(NoticeKind::Info.name(), "info");
    assert_eq!(NoticeKind::Success.name(), "success");
    assert_eq!(NoticeKind::Warning.name(), "warning");
    assert_eq!(NoticeKind::Error.name(), "error");
    assert_eq!(NoticeKind::Info.title(), "Server Action");
    assert_eq!(NoticeKind::Success.title(), "Success");
    assert_eq!(NoticeKind::Warning.title(), "Warning");
    assert_eq!(NoticeKind::Error.title(), "Error");
}
