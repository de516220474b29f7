//! The console's API: which endpoint each operation uses, how a request
//! is authorised, how a reply envelope becomes a result, and how the
//! incident report export is handed to the browser.

use vstd::prelude::*;
use crate::ids::{id_text, uuid_text};
use crate::model::{ApiResponse, AuthResponseDto};
use crate::text::{chars_of, decimal_text, push_char, push_decimal, push_str};

verus! {

/// The HTTP methods the console uses.
#[derive(Clone, Copy, Debug, PartialEq, Eq, Structural)]
pub enum HttpMethod {
    Get,
    Post,
    Patch,
    Delete,
}

/// Every operation the console performs against its API; identifiers are
/// those of the record the operation is about.
#[derive(Clone, Copy, Debug, PartialEq, Eq, Structural)]
pub enum Endpoint {
    Login,
    Register,
    DashboardSummary,
    Alerts,
    UpdateAlertStatus(u128),
    Traffic,
    Rules,
    CreateRule,
    UpdateRule(u128),
    DeleteRule(u128),
    Devices,
    DeviceHistory(u128),
    Blocklist,
    AddToBlocklist,
    RemoveFromBlocklist(u128),
    NotificationChannels,
    CreateNotificationChannel,
    UpdateNotificationChannel(u128),
    DeleteNotificationChannel(u128),
    TestNotificationChannel(u128),
    ExportReport,
}

/// The method of an endpoint.
pub open spec fn method_of(ep: Endpoint) -> HttpMethod {
    match ep {
        Endpoint::Login | Endpoint::Register | Endpoint::CreateRule | Endpoint::AddToBlocklist
        | Endpoint::CreateNotificationChannel | Endpoint::TestNotificationChannel(_) => HttpMethod::Post,
        Endpoint::UpdateAlertStatus(_) | Endpoint::UpdateRule(_)
        | Endpoint::UpdateNotificationChannel(_) => HttpMethod::Patch,
        Endpoint::DeleteRule(_) | Endpoint::RemoveFromBlocklist(_)
        | Endpoint::DeleteNotificationChannel(_) => HttpMethod::Delete,
        _ => HttpMethod::Get,
    }
}

/// The method an endpoint is called with.
pub fn endpoint_method(ep: Endpoint) -> (r: HttpMethod)
    ensures
        r == method_of(ep),
{
    match ep {
        Endpoint::Login | Endpoint::Register | Endpoint::CreateRule | Endpoint::AddToBlocklist
        | Endpoint::CreateNotificationChannel | Endpoint::TestNotificationChannel(_) => HttpMethod::Post,
        Endpoint::UpdateAlertStatus(_) | Endpoint::UpdateRule(_)
        | Endpoint::UpdateNotificationChannel(_) => HttpMethod::Patch,
        Endpoint::DeleteRule(_) | Endpoint::RemoveFromBlocklist(_)
        | Endpoint::DeleteNotificationChannel(_) => HttpMethod::Delete,
        _ => HttpMethod::Get,
    }
}

/// The fixed text of a path, and where its record identifier is appended
/// (`None` for paths that end there).
pub open spec fn path_head(ep: Endpoint) -> Seq<char> {
    match ep {
        Endpoint::Login => "/api/auth/login"@,
        Endpoint::Register => "/api/auth/register"@,
        Endpoint::DashboardSummary => "/api/dashboard/summary"@,
        Endpoint::Alerts => "/api/alerts"@,
        Endpoint::UpdateAlertStatus(_) => "/api/alerts/"@,
        Endpoint::Traffic => "/api/traffic?limit=50"@,
        Endpoint::Rules | Endpoint::CreateRule => "/api/rules"@,
        Endpoint::UpdateRule(_) | Endpoint::DeleteRule(_) => "/api/rules/"@,
        Endpoint::Devices => "/api/devices"@,
        Endpoint::DeviceHistory(_) => "/api/devices/"@,
        Endpoint::Blocklist | Endpoint::AddToBlocklist => "/api/blocklist"@,
        Endpoint::RemoveFromBlocklist(_) => "/api/blocklist/"@,
        Endpoint::NotificationChannels | Endpoint::CreateNotificationChannel =>
            "/api/notifications/channels"@,
        Endpoint::UpdateNotificationChannel(_) | Endpoint::DeleteNotificationChannel(_) =>
            "/api/notifications/channels/"@,
        Endpoint::TestNotificationChannel(_) => "/api/notifications/test/"@,
        Endpoint::ExportReport => "/api/reports/export"@,
    }
}

/// The record identifier a path names, if any.
pub open spec fn path_id(ep: Endpoint) -> Option<u128> {
    match ep {
        Endpoint::UpdateAlertStatus(id) | Endpoint::UpdateRule(id) | Endpoint::DeleteRule(id)
        | Endpoint::DeviceHistory(id) | Endpoint::RemoveFromBlocklist(id)
        | Endpoint::UpdateNotificationChannel(id) | Endpoint::DeleteNotificationChannel(id)
        | Endpoint::TestNotificationChannel(id) => Some(id),
        _ => None,
    }
}

/// The path after an identifier (only the device history has one).
pub open spec fn path_tail(ep: Endpoint) -> Seq<char> {
    match ep {
        Endpoint::DeviceHistory(_) => "/history"@,
        _ => Seq::empty(),
    }
}

/// The full path of an endpoint.
pub open spec fn path_of(ep: Endpoint) -> Seq<char> {
    match path_id(ep) {
        Some(id) => path_head(ep) + uuid_text(id) + path_tail(ep),
        None => path_head(ep),
    }
}

/// The path an endpoint is called at.
pub fn endpoint_path(ep: Endpoint) -> (r: String)
    ensures
        r@ == path_of(ep),
{
    let mut p = String::new();
    match ep {
        Endpoint::Login => push_str(&mut p, "/api/auth/login"),
        Endpoint::Register => push_str(&mut p, "/api/auth/register"),
        Endpoint::DashboardSummary => push_str(&mut p, "/api/dashboard/summary"),
        Endpoint::Alerts => push_str(&mut p, "/api/alerts"),
        Endpoint::UpdateAlertStatus(_) => push_str(&mut p, "/api/alerts/"),
        Endpoint::Traffic => push_str(&mut p, "/api/traffic?limit=50"),
        Endpoint::Rules | Endpoint::CreateRule => push_str(&mut p, "/api/rules"),
        Endpoint::UpdateRule(_) | Endpoint::DeleteRule(_) => push_str(&mut p, "/api/rules/"),
        Endpoint::Devices => push_str(&mut p, "/api/devices"),
        Endpoint::DeviceHistory(_) => push_str(&mut p, "/api/devices/"),
        Endpoint::Blocklist | Endpoint::AddToBlocklist => push_str(&mut p, "/api/blocklist"),
        Endpoint::RemoveFromBlocklist(_) => push_str(&mut p, "/api/blocklist/"),
        Endpoint::NotificationChannels | Endpoint::CreateNotificationChannel => push_str(
            &mut p,
            "/api/notifications/channels",
        ),
        Endpoint::UpdateNotificationChannel(_) | Endpoint::DeleteNotificationChannel(_) => push_str(
            &mut p,
            "/api/notifications/channels/",
        ),
        Endpoint::TestNotificationChannel(_) => push_str(&mut p, "/api/notifications/test/"),
        Endpoint::ExportReport => push_str(&mut p, "/api/reports/export"),
    }
    match ep {
        Endpoint::UpdateAlertStatus(id) | Endpoint::UpdateRule(id) | Endpoint::DeleteRule(id)
        | Endpoint::DeviceHistory(id) | Endpoint::RemoveFromBlocklist(id)
        | Endpoint::UpdateNotificationChannel(id) | Endpoint::DeleteNotificationChannel(id)
        | Endpoint::TestNotificationChannel(id) => {
            let t = id_text(id);
            push_str(&mut p, t.as_str());
        },
        _ => {},
    }
    match ep {
        Endpoint::DeviceHistory(_) => push_str(&mut p, "/history"),
        _ => {},
    }
    assert(p@ =~= path_of(ep));
    p
}

/// Whether the request carries the stored session token: every endpoint
/// but signing in and registering.
pub open spec fn sends_token(ep: Endpoint) -> bool {
    !(ep == Endpoint::Login || ep == Endpoint::Register)
}

/// Whether an endpoint's request carries the stored session token.
pub fn endpoint_sends_token(ep: Endpoint) -> (r: bool)
    ensures
        r == sends_token(ep),
{
    match ep {
        Endpoint::Login | Endpoint::Register => false,
        _ => true,
    }
}

/// The `Authorization` header for a stored token: "Bearer " and the token;
/// none without a token.
pub fn bearer_header(token: Option<String>) -> (r: Option<String>)
    ensures
        token is None ==> r is None,
        token matches Some(t) ==> (r matches Some(h) && h@ == "Bearer "@ + t@),
{
    match token {
        Some(t) => {
            let mut h = String::new();
            push_str(&mut h, "Bearer ");
            push_str(&mut h, t.as_str());
            Some(h)
        },
        None => None,
    }
}

/// The message shown when an endpoint's reply carries no result and no
/// error of its own; the report export, which reads no envelope, has none.
pub open spec fn failure_text(ep: Endpoint) -> Option<Seq<char>> {
    match ep {
        Endpoint::Login => Some("Login failed"@),
        Endpoint::Register => Some("Registration failed"@),
        Endpoint::DashboardSummary => Some("Failed to load summary"@),
        Endpoint::Alerts => Some("Failed to load alerts"@),
        Endpoint::UpdateAlertStatus(_) => Some("Failed to update alert"@),
        Endpoint::Traffic => Some("Failed to load traffic"@),
        Endpoint::Rules => Some("Failed to load rules"@),
        Endpoint::CreateRule => Some("Failed to create rule"@),
        Endpoint::UpdateRule(_) => Some("Failed to update rule"@),
        Endpoint::DeleteRule(_) => Some("Failed to delete rule"@),
        Endpoint::Devices => Some("Failed to load devices"@),
        Endpoint::DeviceHistory(_) => Some("Failed to load device history"@),
        Endpoint::Blocklist => Some("Failed to load blocklist"@),
        Endpoint::AddToBlocklist => Some("Failed to block IP"@),
        Endpoint::RemoveFromBlocklist(_) => Some("Failed to remove IP from blocklist"@),
        Endpoint::NotificationChannels => Some("Failed to load channels"@),
        Endpoint::CreateNotificationChannel => Some("Failed to create channel"@),
        Endpoint::UpdateNotificationChannel(_) => Some("Failed to update channel"@),
        Endpoint::DeleteNotificationChannel(_) => Some("Failed to delete channel"@),
        Endpoint::TestNotificationChannel(_) => Some("Failed to send test alert"@),
        Endpoint::ExportReport => None,
    }
}

/// The fallback message of an endpoint.
pub fn failure_message(ep: Endpoint) -> (r: Option<&'static str>)
    ensures
        r is None <==> failure_text(ep) is None,
        r matches Some(m) ==> Some(m@) == failure_text(ep),
{
    match ep {
        Endpoint::Login => Some("Login failed"),
        Endpoint::Register => Some("Registration failed"),
        Endpoint::DashboardSummary => Some("Failed to load summary"),
        Endpoint::Alerts => Some("Failed to load alerts"),
        Endpoint::UpdateAlertStatus(_) => Some("Failed to update alert"),
        Endpoint::Traffic => Some("Failed to load traffic"),
        Endpoint::Rules => Some("Failed to load rules"),
        Endpoint::CreateRule => Some("Failed to create rule"),
        Endpoint::UpdateRule(_) => Some("Failed to update rule"),
        Endpoint::DeleteRule(_) => Some("Failed to delete rule"),
        Endpoint::Devices => Some("Failed to load devices"),
        Endpoint::DeviceHistory(_) => Some("Failed to load device history"),
        Endpoint::Blocklist => Some("Failed to load blocklist"),
        Endpoint::AddToBlocklist => Some("Failed to block IP"),
        Endpoint::RemoveFromBlocklist(_) => Some("Failed to remove IP from blocklist"),
        Endpoint::NotificationChannels => Some("Failed to load channels"),
        Endpoint::CreateNotificationChannel => Some("Failed to create channel"),
        Endpoint::UpdateNotificationChannel(_) => Some("Failed to update channel"),
        Endpoint::DeleteNotificationChannel(_) => Some("Failed to delete channel"),
        Endpoint::TestNotificationChannel(_) => Some("Failed to send test alert"),
        Endpoint::ExportReport => None,
    }
}

/// The error a reply reports: its own message, else `fallback`.
pub open spec fn error_text(error: Option<String>, fallback: Seq<char>) -> Seq<char> {
    match error {
        Some(e) => e@,
        None => fallback,
    }
}

fn error_or(error: Option<String>, fallback: &str) -> (r: String)
    ensures
        r@ == error_text(error, fallback@),
{
    match error {
        Some(e) => e,
        None => fallback.to_owned(),
    }
}

/// A reply to a read or an update: its data when it has some, else its
/// error message, else `fallback`. The success flag is not consulted.
pub fn data_or_error<T>(reply: ApiResponse<T>, fallback: &str) -> (r: Result<T, String>)
    ensures
        reply.data matches Some(d) ==> r == Ok::<T, String>(d),
        reply.data is None ==> (r matches Err(e) && e@ == error_text(reply.error, fallback@)),
{
    match reply.data {
        Some(d) => Ok(d),
        None => Err(error_or(reply.error, fallback)),
    }
}

/// A reply to a deletion: `Ok` when it reports success, else its error
/// message, else `fallback`.
pub fn ack_or_error(reply: ApiResponse<()>, fallback: &str) -> (r: Result<(), String>)
    ensures
        reply.success ==> r is Ok,
        !reply.success ==> (r matches Err(e) && e@ == error_text(reply.error, fallback@)),
{
    if reply.success {
        Ok(())
    } else {
        Err(error_or(reply.error, fallback))
    }
}

/// A reply to signing in or registering: the granted session when the
/// reply reports success and carries one, else its error message, else
/// `fallback`.
pub fn session_or_error(reply: ApiResponse<AuthResponseDto>, fallback: &str) -> (r: Result<
    AuthResponseDto,
    String,
>)
    ensures
        reply.success && reply.data is Some ==> r == Ok::<AuthResponseDto, String>(
            reply.data->Some_0,
        ),
        !(reply.success && reply.data is Some) ==> (r matches Err(e) && e@ == error_text(
            reply.error,
            fallback@,
        )),
{
    if reply.success {
        match reply.data {
            Some(d) => {
                return Ok(d);
            },
            None => {},
        }
    }
    Err(error_or(reply.error, fallback))
}

/// The message for an export whose HTTP status is not a success.
pub open spec fn export_failure_text(status: u16) -> Seq<char> {
    "Export request failed with status: "@ + decimal_text(status as nat)
}

/// The outcome of the report download request: nothing when the response
/// is a success, else the message naming its status.
pub fn export_failure(ok: bool, status: u16) -> (r: Option<String>)
    ensures
        ok ==> r is None,
        !ok ==> (r matches Some(m) && m@ == export_failure_text(status)),
{
    if ok {
        None
    } else {
        let mut m = String::new();
        push_str(&mut m, "Export request failed with status: ");
        push_decimal(&mut m, status as u64);
        Some(m)
    }
}

/// How one character is written inside a JavaScript template literal:
/// backslash, backtick and dollar get a backslash in front.
pub open spec fn escape_char(c: char) -> Seq<char> {
    if c == '\\' || c == '`' || c == '$' {
        seq!['\\', c]
    } else {
        seq![c]
    }
}

/// A text written for a JavaScript template literal, character by character.
pub open spec fn template_escaped(s: Seq<char>) -> Seq<char>
    decreases s.len(),
{
    if s.len() == 0 {
        Seq::empty()
    } else {
        escape_char(s[0]) + template_escaped(s.drop_first())
    }
}

/// What a JavaScript template literal's body reads as, for bodies that use
/// no escape but a backslash before one character: that character.
pub open spec fn template_value(t: Seq<char>) -> Seq<char>
    decreases t.len(),
{
    if t.len() == 0 {
        Seq::empty()
    } else if t[0] == '\\' && t.len() >= 2 {
        seq![t[1]] + template_value(t.subrange(2, t.len() as int))
    } else {
        seq![t[0]] + template_value(t.drop_first())
    }
}

/// Escaping distributes over appending one character.
pub proof fn lemma_escaped_push(s: Seq<char>, c: char)
    ensures
        template_escaped(s.push(c)) == template_escaped(s) + escape_char(c),
    decreases s.len(),
{
    if s.len() == 0 {
        assert(s.push(c).drop_first() =~= Seq::<char>::empty());
        assert(template_escaped(Seq::<char>::empty()) == Seq::<char>::empty());
        assert(s.push(c)[0] == c);
        assert(template_escaped(s.push(c)) =~= escape_char(c));
    } else {
        assert(s.push(c).drop_first() =~= s.drop_first().push(c));
        lemma_escaped_push(s.drop_first(), c);
        assert(template_escaped(s.push(c)) =~= escape_char(s[0]) + template_escaped(
            s.drop_first().push(c),
        ));
    }
}

/// The text of the report, escaped for a template literal.
pub fn escape_for_template(s: &str) -> (r: String)
    ensures
        r@ == template_escaped(s@),
{
    let cs = chars_of(s);
    let mut out = String::new();
    let mut i: usize = 0;
    while i < cs.len()
        invariant
            i <= cs.len(),
            cs@ == s@,
            out@ == template_escaped(cs@.take(i as int)),
        decreases cs.len() - i,
    {
        let c = cs[i];
        if c == '\\' || c == '`' || c == '$' {
            push_char(&mut out, '\\');
        }
        push_char(&mut out, c);
        proof {
            assert(cs@.take(i + 1) == cs@.take(i as int).push(c));
            lemma_escaped_push(cs@.take(i as int), c);
            assert(out@ =~= template_escaped(cs@.take(i as int)) + escape_char(c));
        }
        i = i + 1;
    }
    assert(cs@.take(cs.len() as int) == cs@);
    out
}

/// The script text before the report in the download script.
pub open spec fn download_script_head() -> Seq<char> {
    "(function() {\n                const blob = new Blob([`"@
}

/// The script text after the report in the download script.
pub open spec fn download_script_tail() -> Seq<char> {
    "`], { type: 'text/csv;charset=utf-8;' });\n                const url = URL.createObjectURL(blob);\n                const a = document.createElement('a');\n                a.href = url;\n                a.download = 'security_incidents_report.csv';\n                document.body.appendChild(a);\n                a.click();\n                document.body.removeChild(a);\n                setTimeout(() => URL.revokeObjectURL(url), 1000);\n            })()"@
}

/// The script that makes the browser save the report as
/// "security_incidents_report.csv": the report text sits, escaped, inside a
/// template literal that becomes a CSV blob.
pub fn download_script(csv: &str) -> (r: String)
    ensures
        r@ == download_script_head() + template_escaped(csv@) + download_script_tail(),
{
    let mut script = String::new();
    push_str(&mut script, "(function() {\n                const blob = new Blob([`");
    let body = escape_for_template(csv);
    push_str(&mut script, body.as_str());
    push_str(&mut script, "`], { type: 'text/csv;charset=utf-8;' });\n                const url = URL.createObjectURL(blob);\n                const a = document.createElement('a');\n                a.href = url;\n                a.download = 'security_incidents_report.csv';\n                document.body.appendChild(a);\n                a.click();\n                document.body.removeChild(a);\n                setTimeout(() => URL.revokeObjectURL(url), 1000);\n            })()");
    script
}

} // verus!
