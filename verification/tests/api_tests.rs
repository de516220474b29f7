use frontend::api::{
    ack_or_error, bearer_header, data_or_error, download_script, endpoint_method, endpoint_path,
    endpoint_sends_token, escape_for_template, export_failure, failure_message, session_or_error,
    Endpoint, HttpMethod,
};
use frontend::model::{ApiResponse, AuthResponseDto, UserPublicDto, UserRole};

const ID: u128 = 0x936da01f_9abd_4d9d_80c7_02af85c822a8;

#[test]
fn identifier_text_is_hyphenated_lowercase() {
    assert_eq!(endpoint_path(Endpoint::DeleteRule(ID)), "/api/rules/936da01f-9abd-4d9d-80c7-02af85c822a8");
    assert_eq!(endpoint_path(Endpoint::DeleteRule(0)), "/api/rules/00000000-0000-0000-0000-000000000000");
    assert_eq!(
        endpoint_path(Endpoint::RemoveFromBlocklist(u128::MAX)),
        "/api/blocklist/ffffffff-ffff-ffff-ffff-ffffffffffff"
    );
}

#[test]
fn endpoint_paths() {
    assert_eq!(endpoint_path(Endpoint::Login), "/api/auth/login");
    assert_eq!(endpoint_path(Endpoint::Traffic), "/api/traffic?limit=50");
    assert_eq!(
        endpoint_path(Endpoint::UpdateAlertStatus(ID)),
        "/api/alerts/936da01f-9abd-4d9d-80c7-02af85c822a8"
    );
    assert_eq!(
        endpoint_path(Endpoint::DeviceHistory(ID)),
        "/api/devices/936da01f-9abd-4d9d-80c7-02af85c822a8/history"
    );
    assert_eq!(
        endpoint_path(Endpoint::TestNotificationChannel(1)),
        "/api/notifications/test/00000000-0000-0000-0000-000000000001"
    );
    assert_eq!(endpoint_path(Endpoint::ExportReport), "/api/reports/export");
}

#[test]
fn endpoint_methods_and_tokens() {
    assert_eq!(endpoint_method(Endpoint::Login), HttpMethod::Post);
    assert_eq!(endpoint_method(Endpoint::Alerts), HttpMethod::Get);
    assert_eq!(endpoint_method(Endpoint::UpdateRule(1)), HttpMethod::Patch);
    assert_eq!(endpoint_method(Endpoint::RemoveFromBlocklist(1)), HttpMethod::Delete);
    assert_eq!(endpoint_method(Endpoint::TestNotificationChannel(1)), HttpMethod::Post);
    assert!(!endpoint_sends_token(Endpoint::Login));
    assert!(!endpoint_sends_token(Endpoint::Register));
    assert!(endpoint_sends_token(Endpoint::ExportReport));
}

#[test]
fn fallback_messages() {
    assert_eq!(failure_message(Endpoint::Login), Some("Login failed"));
    assert_eq!(failure_message(Endpoint::RemoveFromBlocklist(3)), Some("Failed to remove IP from blocklist"));
    assert_eq!(failure_message(Endpoint::ExportReport), None);
}

#[test]
fn bearer_header_from_token() {
    assert_eq!(bearer_header(Some("abc.def".to_string())), Some("Bearer abc.def".to_string()));
    assert_eq!(bearer_header(None), None);
}

#[test]
fn envelope_with_data_gives_the_data() {
    let r = data_or_error(ApiResponse { success: false, data: Some(5u32), error: Some("x".to_string()) }, "f");
    assert_eq!(r, Ok(5));
}

#[test]
fn envelope_without_data_gives_its_error_or_the_fallback() {
    let r: Result<u32, String> =
        data_or_error(ApiResponse { success: false, data: None, error: Some("denied".to_string()) }, "f");
    assert_eq!(r, Err("denied".to_string()));
    let r: Result<u32, String> = data_or_error(ApiResponse { success: true, data: None, error: None }, "Failed to load alerts");
    assert_eq!(r, Err("Failed to load alerts".to_string()));
}

#[test]
fn deletion_reply() {
    assert_eq!(ack_or_error(ApiResponse { success: true, data: None, error: None }, "f"), Ok(()));
    assert_eq!(
        ack_or_error(ApiResponse { success: false, data: None, error: None }, "Failed to delete rule"),
        Err("Failed to delete rule".to_string())
    );
    assert_eq!(
        ack_or_error(ApiResponse { success: false, data: None, error: Some("missing".to_string()) }, "f"),
        Err("missing".to_string())
    );
}

fn session() -> AuthResponseDto {
    AuthResponseDto {
        token: "tok".to_string(),
        user: UserPublicDto { id: 1, username: "ana".to_string(), email: "a@x".to_string(), role: UserRole::Analyst },
    }
}

#[test]
fn sign_in_reply() {
    let ok = session_or_error(ApiResponse { success: true, data: Some(session()), error: None }, "Login failed");
    assert_eq!(ok.unwrap().token, "tok");
    let refused = session_or_error(ApiResponse { success: false, data: Some(session()), error: None }, "Login failed");
    assert_eq!(refused.unwrap_err(), "Login failed");
    let empty = session_or_error(
        ApiResponse { success: true, data: None, error: Some("no session".to_string()) },
        "Registration failed",
    );
    assert_eq!(empty.unwrap_err(), "no session");
}

#[test]
fn export_status() {
    assert_eq!(export_failure(true, 200), None);
    assert_eq!(export_failure(false, 403), Some("Export request failed with status: 403".to_string()));
}

#[test]
fn report_escaping() {
    assert_eq!(escape_for_template("a,b\n1,2"), "a,b\n1,2");
    assert_eq!(escape_for_template("`x` $y \\z"), "\\`x\\` \\$y \\\\z");
    assert_eq!(escape_for_template(""), "");
}

fn unescape(t: &str) -> String {
    let mut out = String::new();
    let mut it = t.chars();
    while let Some(c) = it.next() {
        if c == '\\' {
            if let Some(n) = it.next() {
                out.push(n);
            } else {
                out.push(c);
            }
        } else {
            out.push(c);
        }
    }
    out
}

#[test]
fn report_round_trip() {
    for s in ["plain", "`${alert}`", "C:\\path\\$x", "\\`"] {
        assert_eq!(unescape(&escape_for_template(s)), s);
    }
}

#[test]
fn download_script_embeds_the_report() {
    let s = download_script("id,sev\n1,`hi`");
    assert!(s.starts_with("(function() {\n                const blob = new Blob([`id,sev\n1,\\`hi\\``], { type: 'text/csv;charset=utf-8;' });"));
    assert!(s.contains("a.download = 'security_incidents_report.csv';"));
    assert!(s.ends_with("setTimeout(() => URL.revokeObjectURL(url), 1000);\n            })()"));
}

#[test]
fn different_records_get_different_paths() {
    let a = endpoint_path(Endpoint::DeleteNotificationChannel(1));
    let b = endpoint_path(Endpoint::DeleteNotificationChannel(1 << 64));
    assert_ne!(a, b);
    assert_eq!(a.len(), "/api/notifications/channels/".len() + 36);
}
