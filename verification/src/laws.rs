//! Properties that hold across the console's operations, proved from the
//! specifications the operations are verified against.

use vstd::prelude::*;
use crate::api::{
    escape_char, method_of, path_head, path_id, path_of, path_tail, sends_token, template_escaped, template_value,
    Endpoint, HttpMethod,
};
use crate::filters::{alert_filter, device_filter, opt_text, traffic_filter};
use crate::text::{eq_ignore_ascii_case, lowercase_text, text_contains};
use crate::ids::{hex_digit, hyphens_before, uuid_nibble, uuid_text};
use vstd::arithmetic::div_mod::{lemma_basic_div, lemma_div_denominator, lemma_fundamental_div_mod};
use vstd::arithmetic::mul::lemma_mul_is_commutative;
use vstd::arithmetic::power::{lemma_pow_positive, pow};
use crate::forms::{rule_severity_choice, severity_filter_choice};
use crate::labels::{next_step, severity_caps, severity_word};
use crate::live::{feed_url, throughput_after, FeedChannel};
use crate::lists::{is_first_key, key_differs, lacks_key, prepended_bounded, without_key};
use crate::model::{Alert, AlertSeverity, AlertStatus, Device, Keyed, TrafficEvent, UserRole};
use crate::session::{landing, nav_for, page_of, NavIcon, Page};
use crate::stats::{chart_after, chart_sample, first_n, severity_count, CHART_WINDOW};

verus! {

broadcast use vstd::seq_lib::group_filter_ensures;

/// Every alert has exactly one severity, so the four severity counts add up
/// to the number of alerts.
pub proof fn law_severity_counts_cover_all(s: Seq<Alert>)
    ensures
        severity_count(s, AlertSeverity::Critical) + severity_count(s, AlertSeverity::High)
            + severity_count(s, AlertSeverity::Medium) + severity_count(s, AlertSeverity::Low)
            == s.len(),
    decreases s.len(),
{
    if s.len() > 0 {
        law_severity_counts_cover_all(s.drop_last());
    }
}

/// A live feed that holds at most `cap` entries still does after a push;
/// the pushed record comes first and the earlier entries follow in order.
pub proof fn law_feed_stays_bounded<T>(s: Seq<T>, item: T, cap: nat)
    requires
        s.len() <= cap,
        cap > 0,
    ensures
        prepended_bounded(s, item, cap).len() <= cap,
        prepended_bounded(s, item, cap)[0] == item,
        forall|i: int|
            1 <= i < prepended_bounded(s, item, cap).len() ==> #[trigger] prepended_bounded(
                s,
                item,
                cap,
            )[i] == s[i - 1],
{
}

/// The throughput chart never holds more than its window once it fits,
/// and a reported reading becomes a sample between 100 and 699 at its end.
pub proof fn law_chart_window(h: Seq<usize>, current: u64)
    requires
        h.len() <= CHART_WINDOW,
    ensures
        chart_after(h, current).len() <= CHART_WINDOW,
        current > 0 ==> chart_after(h, current).last() == chart_sample(current),
        current > 0 ==> 100 <= chart_sample(current) < 700,
        current == 0 ==> chart_after(h, current) == h,
{
}

/// After a record is removed by identifier none is left with it, the other
/// records all remain, and removing again changes nothing.
pub proof fn law_remove_by_key<T: Keyed>(s: Seq<T>, key: u128)
    ensures
        lacks_key(without_key(s, key), key),
        forall|i: int|
            0 <= i < s.len() && s[i].key_of() != key ==> without_key(s, key).contains(
                #[trigger] s[i],
            ),
        without_key(without_key(s, key), key) == without_key(s, key),
{
    let r = without_key(s, key);
    assert forall|j: int| 0 <= j < r.len() implies (#[trigger] r[j]).key_of() != key by {
        s.lemma_filter_pred(key_differs::<T>(key), j);
    }
    assert forall|i: int| 0 <= i < s.len() && s[i].key_of() != key implies r.contains(
        #[trigger] s[i],
    ) by {
        s.lemma_filter_contains(key_differs::<T>(key), i);
    }
    lemma_filter_keeps_all(r, key_differs::<T>(key));
}

/// Filtering a sequence whose every element passes gives it back.
proof fn lemma_filter_keeps_all<T>(s: Seq<T>, p: spec_fn(T) -> bool)
    requires
        forall|j: int| 0 <= j < s.len() ==> p(#[trigger] s[j]),
    ensures
        s.filter(p) == s,
    decreases s.len(),
{
    reveal(Seq::filter);
    if s.len() > 0 {
        lemma_filter_keeps_all(s.drop_last(), p);
        assert(s.drop_last().push(s.last()) =~= s);
    }
}

/// Replacing the first record with an identifier changes that position only.
pub proof fn law_replace_by_key<T: Keyed>(s: Seq<T>, key: u128, i: int, item: T)
    requires
        is_first_key(s, key, i),
    ensures
        s.update(i, item).len() == s.len(),
        s.update(i, item)[i] == item,
        forall|j: int| 0 <= j < s.len() && j != i ==> #[trigger] s.update(i, item)[j] == s[j],
{
}

/// The incident table shows exactly the alerts that pass its controls, in
/// their order; with no control set it shows every alert.
pub proof fn law_alert_filter(
    s: Seq<Alert>,
    severity: Option<AlertSeverity>,
    status: Option<AlertStatus>,
    q: Seq<char>,
)
    ensures
        forall|j: int|
            0 <= j < s.filter(alert_filter(severity, status, q)).len() ==> alert_filter(
                severity,
                status,
                q,
            )(#[trigger] s.filter(alert_filter(severity, status, q))[j]),
        forall|i: int|
            0 <= i < s.len() && alert_filter(severity, status, q)(s[i]) ==> s.filter(
                alert_filter(severity, status, q),
            ).contains(#[trigger] s[i]),
        s.filter(alert_filter(None, None, Seq::empty())) == s,
{
    lemma_filter_keeps_all(s, alert_filter(None, None, Seq::empty()));
}

/// Filtering the incident table's rows again with the same controls
/// changes nothing.
pub proof fn law_alert_filter_idempotent(
    s: Seq<Alert>,
    severity: Option<AlertSeverity>,
    status: Option<AlertStatus>,
    q: Seq<char>,
)
    ensures
        s.filter(alert_filter(severity, status, q)).filter(alert_filter(severity, status, q))
            == s.filter(alert_filter(severity, status, q)),
{
    let p = alert_filter(severity, status, q);
    let r = s.filter(p);
    assert forall|j: int| 0 <= j < r.len() implies p(#[trigger] r[j]) by {
        s.lemma_filter_pred(p, j);
    }
    lemma_filter_keeps_all(r, p);
}

/// The traffic feed with no protocol chosen and no search text shows every event.
pub proof fn law_traffic_filter_empty(s: Seq<TrafficEvent>)
    ensures
        s.filter(traffic_filter(None, Seq::empty())) == s,
{
    lemma_filter_keeps_all(s, traffic_filter(None, Seq::empty()));
}

/// The inventory with no search text shows every device.
pub proof fn law_device_filter_empty(s: Seq<Device>)
    ensures
        s.filter(device_filter(Seq::empty())) == s,
{
    lemma_filter_keeps_all(s, device_filter(Seq::empty()));
}

/// The report text the browser reads back from the download script's
/// template literal is exactly the text the server sent.
pub proof fn law_report_survives_escaping(s: Seq<char>)
    ensures
        template_value(template_escaped(s)) == s,
    decreases s.len(),
{
    if s.len() > 0 {
        let c = s[0];
        let rest = s.drop_first();
        let t = template_escaped(s);
        law_report_survives_escaping(rest);
        assert(t == escape_char(c) + template_escaped(rest));
        if c == '\\' || c == '`' || c == '$' {
            assert(t.subrange(2, t.len() as int) =~= template_escaped(rest));
        } else {
            assert(t.drop_first() =~= template_escaped(rest));
        }
        assert(s =~= seq![c] + rest);
    }
}

/// Roles see nested navigation: a viewer's entries begin an analyst's, and
/// an analyst's begin an administrator's.
pub proof fn law_navigation_grows_with_role()
    ensures
        nav_for(UserRole::Viewer).is_prefix_of(nav_for(UserRole::Analyst)),
        nav_for(UserRole::Analyst).is_prefix_of(nav_for(UserRole::Admin)),
        nav_for(UserRole::Viewer).len() == 5,
        nav_for(UserRole::Analyst).len() == 6,
        nav_for(UserRole::Admin).len() == 7,
{
}

/// The triage order of statuses.
pub open spec fn status_rank(s: AlertStatus) -> int {
    match s {
        AlertStatus::Open => 0,
        AlertStatus::Acknowledged => 1,
        AlertStatus::Resolved => 2,
    }
}

/// Triage only moves forward, one step at a time, and ends at resolved.
pub proof fn law_triage_moves_forward(s: AlertStatus)
    ensures
        next_step(s) matches Some(p) ==> status_rank(p.0) == status_rank(s) + 1,
        next_step(s) is None <==> s == AlertStatus::Resolved,
{
}

/// A signed-in visitor lands on the dashboard, any other on the sign-in page.
pub proof fn law_landing_page(signed_in: bool)
    ensures
        page_of(landing(signed_in)) == if signed_in {
            Page::Dashboard
        } else {
            Page::Login
        },
{
    reveal_strlit("dashboard");
    reveal_strlit("login");
    assert("dashboard"@.len() != "login"@.len());
}

/// A record's identifier is written as 36 characters with hyphens after
/// the 8th, 12th, 16th and 20th hexadecimal digits.
pub proof fn law_id_text_shape(id: u128)
    ensures
        uuid_text(id).len() == 36,
        uuid_text(id)[8] == '-' && uuid_text(id)[13] == '-' && uuid_text(id)[18] == '-'
            && uuid_text(id)[23] == '-',
{
}


/// The value of the first `m` of the 32 hexadecimal digits of `v`.
pub open spec fn hex_prefix(v: u128, m: nat) -> int {
    v as int / pow(16, (32 - m) as nat)
}

/// One more digit: the prefix shifts by a digit and takes the next one.
proof fn lemma_hex_prefix_step(v: u128, m: nat)
    requires
        m < 32,
    ensures
        hex_prefix(v, m + 1) == hex_prefix(v, m) * 16 + uuid_nibble(v, m as int),
{
    let c = pow(16, (31 - m) as nat);
    lemma_pow_positive(16, (31 - m) as nat);
    let e = (32 - m) as nat;
    assert(((e - 1) as nat) == (31 - m) as nat);
    assert(pow(16, e) == 16 * pow(16, (e - 1) as nat)) by {
        reveal(pow);
    }
    assert(pow(16, (32 - m) as nat) == 16 * c);
    lemma_div_denominator(v as int, c, 16);
    lemma_mul_is_commutative(c, 16);
    let x = v as int / c;
    lemma_fundamental_div_mod(x, 16);
    assert((m + 1) as nat == m + 1);
    assert((32 - (m + 1)) as nat == (31 - m) as nat);
}

/// Values that agree on their first `m` digits agree on those digits' value.
proof fn lemma_hex_prefix_agree(a: u128, b: u128, m: nat)
    requires
        m <= 32,
        forall|k: int| 0 <= k < m ==> uuid_nibble(a, k) == uuid_nibble(b, k),
    ensures
        hex_prefix(a, m) == hex_prefix(b, m),
    decreases m,
{
    if m == 0 {
        reveal_with_fuel(pow, 33);
        assert(pow(16, 32) == 0x1_0000_0000_0000_0000_0000_0000_0000_0000int);
        lemma_basic_div(a as int, pow(16, 32));
        lemma_basic_div(b as int, pow(16, 32));
    } else {
        lemma_hex_prefix_agree(a, b, (m - 1) as nat);
        lemma_hex_prefix_step(a, (m - 1) as nat);
        lemma_hex_prefix_step(b, (m - 1) as nat);
    }
}

/// Where the `k`-th hexadecimal digit stands in the hyphenated text.
pub open spec fn digit_position(k: int) -> int {
    k + (if k >= 8 { 1int } else { 0 }) + (if k >= 12 { 1int } else { 0 }) + (if k >= 16 {
        1int
    } else {
        0
    }) + (if k >= 20 { 1int } else { 0 })
}

/// Different records are never written with the same identifier text, so
/// a path that names a record names no other.
pub proof fn law_id_text_identifies(a: u128, b: u128)
    requires
        uuid_text(a) == uuid_text(b),
    ensures
        a == b,
{
    assert forall|k: int| 0 <= k < 32 implies uuid_nibble(a, k) == uuid_nibble(b, k) by {
        let j = digit_position(k);
        assert(!(j == 8 || j == 13 || j == 18 || j == 23));
        assert(j - hyphens_before(j) == k);
        assert(uuid_text(a)[j] == hex_digit(uuid_nibble(a, k)));
        assert(uuid_text(b)[j] == hex_digit(uuid_nibble(b, k)));
        let na = uuid_nibble(a, k);
        let nb = uuid_nibble(b, k);
        lemma_pow_positive(16, (31 - k) as nat);
        assert(0 <= na < 16 && 0 <= nb < 16);
        assert(hex_digit(na) as int == if na < 10 { 48 + na } else { 87 + na });
        assert(hex_digit(nb) as int == if nb < 10 { 48 + nb } else { 87 + nb });
    }
    lemma_hex_prefix_agree(a, b, 32);
    assert(pow(16, 0) == 1) by {
        reveal(pow);
    }
}


/// Two operations of the same kind on different records are sent to
/// different paths.
pub proof fn law_paths_name_one_record(e1: Endpoint, e2: Endpoint, a: u128, b: u128)
    requires
        path_head(e1) == path_head(e2),
        path_tail(e1) == path_tail(e2),
        path_id(e1) == Some(a),
        path_id(e2) == Some(b),
        path_of(e1) == path_of(e2),
    ensures
        a == b,
{
    let h = path_head(e1).len() as int;
    assert(path_of(e1).subrange(h, h + 36) =~= uuid_text(a));
    assert(path_of(e2).subrange(h, h + 36) =~= uuid_text(b));
    law_id_text_identifies(a, b);
}


/// What the incident table shows, said of its rows: under a chosen severity
/// or status every row has exactly that severity or status; under a search
/// text every row's addresses ("source destination") or title contain it,
/// both sides lower-cased; every row is one of the alerts; and every alert
/// that meets all the chosen controls is shown.
pub proof fn law_incident_rows(
    alerts: Seq<Alert>,
    severity: Option<AlertSeverity>,
    status: Option<AlertStatus>,
    q: Seq<char>,
)
    ensures
        ({
            let rows = alerts.filter(alert_filter(severity, status, q));
            &&& rows.len() <= alerts.len()
            &&& forall|j: int| 0 <= j < rows.len() ==> alerts.contains(#[trigger] rows[j])
            &&& forall|j: int|
                severity is Some && 0 <= j < rows.len() ==> severity == Some(
                    (#[trigger] rows[j]).severity,
                )
            &&& forall|j: int|
                status is Some && 0 <= j < rows.len() ==> status == Some((#[trigger] rows[j]).status)
            &&& forall|j: int|
                q.len() > 0 && 0 <= j < rows.len() ==> text_contains(
                    lowercase_text((#[trigger] rows[j]).src_ip@ + seq![' '] + rows[j].dst_ip@),
                    q,
                ) || text_contains(lowercase_text(rows[j].title@), q)
            &&& forall|i: int|
                0 <= i < alerts.len() && (severity is None || severity == Some(
                    alerts[i].severity,
                )) && (status is None || status == Some(alerts[i].status)) && (q.len() == 0
                    || text_contains(lowercase_text(alerts[i].title@), q) || text_contains(
                    lowercase_text(alerts[i].src_ip@ + seq![' '] + alerts[i].dst_ip@),
                    q,
                )) ==> rows.contains(#[trigger] alerts[i])
        }),
{
    let f = alert_filter(severity, status, q);
    let rows = alerts.filter(f);
    assert forall|j: int| 0 <= j < rows.len() implies alerts.contains(#[trigger] rows[j]) by {
        assert(rows.contains(rows[j]));
        alerts.lemma_filter_contains_rev(f, rows[j]);
    }
    assert forall|j: int| severity is Some && 0 <= j < rows.len() implies severity == Some(
        (#[trigger] rows[j]).severity,
    ) by {
        assert(f(rows[j]));
    }
    assert forall|j: int| status is Some && 0 <= j < rows.len() implies status == Some(
        (#[trigger] rows[j]).status,
    ) by {
        assert(f(rows[j]));
    }
    assert forall|j: int| q.len() > 0 && 0 <= j < rows.len() implies text_contains(
        lowercase_text((#[trigger] rows[j]).src_ip@ + seq![' '] + rows[j].dst_ip@),
        q,
    ) || text_contains(lowercase_text(rows[j].title@), q) by {
        assert(f(rows[j]));
    }
    assert forall|i: int|
        0 <= i < alerts.len() && (severity is None || severity == Some(alerts[i].severity)) && (
        status is None || status == Some(alerts[i].status)) && (q.len() == 0 || text_contains(
            lowercase_text(alerts[i].title@),
            q,
        ) || text_contains(lowercase_text(alerts[i].src_ip@ + seq![' '] + alerts[i].dst_ip@), q))
        implies rows.contains(#[trigger] alerts[i]) by {
        assert(f(alerts[i]));
    }
}

/// What the traffic feed shows, said of its rows: under a chosen protocol
/// every row's protocol equals it up to ASCII case; under a search text every
/// row's source or destination address contains it, both sides lower-cased;
/// every row is one of the events; and every event that meets the protocol
/// choice and whose source, or whose destination, contains the search text
/// is shown.
pub proof fn law_traffic_rows(events: Seq<TrafficEvent>, protocol: Option<Seq<char>>, q: Seq<char>)
    ensures
        ({
            let rows = events.filter(traffic_filter(protocol, q));
            &&& rows.len() <= events.len()
            &&& forall|j: int| 0 <= j < rows.len() ==> events.contains(#[trigger] rows[j])
            &&& forall|j: int|
                protocol is Some && 0 <= j < rows.len() ==> eq_ignore_ascii_case(
                    (#[trigger] rows[j]).protocol@,
                    protocol->0,
                )
            &&& forall|j: int|
                q.len() > 0 && 0 <= j < rows.len() ==> text_contains(
                    lowercase_text((#[trigger] rows[j]).src_ip@),
                    q,
                ) || text_contains(lowercase_text(rows[j].dst_ip@), q)
            &&& forall|i: int|
                0 <= i < events.len() && (protocol matches Some(p) ==> eq_ignore_ascii_case(
                    events[i].protocol@,
                    p,
                )) && (q.len() == 0 || text_contains(lowercase_text(events[i].src_ip@), q))
                    ==> rows.contains(#[trigger] events[i])
            &&& forall|i: int|
                0 <= i < events.len() && (protocol matches Some(p) ==> eq_ignore_ascii_case(
                    events[i].protocol@,
                    p,
                )) && (q.len() == 0 || text_contains(lowercase_text(events[i].dst_ip@), q))
                    ==> rows.contains(#[trigger] events[i])
        }),
{
    let f = traffic_filter(protocol, q);
    let rows = events.filter(f);
    assert forall|j: int| 0 <= j < rows.len() implies events.contains(#[trigger] rows[j]) by {
        assert(rows.contains(rows[j]));
        events.lemma_filter_contains_rev(f, rows[j]);
    }
    assert forall|j: int| protocol is Some && 0 <= j < rows.len() implies eq_ignore_ascii_case(
        (#[trigger] rows[j]).protocol@,
        protocol->0,
    ) by {
        assert(f(rows[j]));
    }
    assert forall|j: int| q.len() > 0 && 0 <= j < rows.len() implies text_contains(
        lowercase_text((#[trigger] rows[j]).src_ip@),
        q,
    ) || text_contains(lowercase_text(rows[j].dst_ip@), q) by {
        assert(f(rows[j]));
    }
    assert forall|i: int|
        0 <= i < events.len() && (protocol matches Some(p) ==> eq_ignore_ascii_case(
            events[i].protocol@,
            p,
        )) && (q.len() == 0 || text_contains(lowercase_text(events[i].src_ip@), q)) implies rows.contains(
        #[trigger] events[i],
    ) by {
        assert(f(events[i]));
    }
    assert forall|i: int|
        0 <= i < events.len() && (protocol matches Some(p) ==> eq_ignore_ascii_case(
            events[i].protocol@,
            p,
        )) && (q.len() == 0 || text_contains(lowercase_text(events[i].dst_ip@), q)) implies rows.contains(
        #[trigger] events[i],
    ) by {
        assert(f(events[i]));
    }
}

/// What the inventory shows under a search text, said of its rows: every
/// row's address, MAC, host name or type contains it, both sides lower-cased
/// (an absent field reads as empty); every row is one of the devices; and
/// every device with such a field is shown.
pub proof fn law_inventory_rows(devices: Seq<Device>, q: Seq<char>)
    ensures
        ({
            let rows = devices.filter(device_filter(q));
            &&& forall|j: int| 0 <= j < rows.len() ==> devices.contains(#[trigger] rows[j])
            &&& forall|j: int|
                q.len() > 0 && 0 <= j < rows.len() ==> {
                    let d = #[trigger] rows[j];
                    text_contains(lowercase_text(d.ip_address@), q) || text_contains(
                        lowercase_text(opt_text(d.mac_address)),
                        q,
                    ) || text_contains(lowercase_text(opt_text(d.hostname)), q) || text_contains(
                        lowercase_text(d.device_type@),
                        q,
                    )
                }
            &&& forall|i: int|
                0 <= i < devices.len() && (q.len() == 0 || text_contains(
                    lowercase_text(devices[i].ip_address@),
                    q,
                ) || text_contains(lowercase_text(opt_text(devices[i].mac_address)), q)
                    || text_contains(lowercase_text(opt_text(devices[i].hostname)), q)
                    || text_contains(lowercase_text(devices[i].device_type@), q)) ==> rows.contains(
                    #[trigger] devices[i],
                )
        }),
{
    let f = device_filter(q);
    let rows = devices.filter(f);
    assert forall|j: int| 0 <= j < rows.len() implies devices.contains(#[trigger] rows[j]) by {
        assert(rows.contains(rows[j]));
        devices.lemma_filter_contains_rev(f, rows[j]);
    }
    assert forall|j: int| q.len() > 0 && 0 <= j < rows.len() implies {
        let d = #[trigger] rows[j];
        text_contains(lowercase_text(d.ip_address@), q) || text_contains(
            lowercase_text(opt_text(d.mac_address)),
            q,
        ) || text_contains(lowercase_text(opt_text(d.hostname)), q) || text_contains(
            lowercase_text(d.device_type@),
            q,
        )
    } by {
        assert(f(rows[j]));
    }
    assert forall|i: int|
        0 <= i < devices.len() && (q.len() == 0 || text_contains(
            lowercase_text(devices[i].ip_address@),
            q,
        ) || text_contains(lowercase_text(opt_text(devices[i].mac_address)), q) || text_contains(
            lowercase_text(opt_text(devices[i].hostname)),
            q,
        ) || text_contains(lowercase_text(devices[i].device_type@), q)) implies rows.contains(
        #[trigger] devices[i],
    ) by {
        assert(f(devices[i]));
    }
}

/// Where each request goes and how it is sent: every endpoint's method and
/// path, the path of an operation on one record being the path of its
/// collection, a slash and the record's identifier text.
pub proof fn law_request_paths(id: u128)
    ensures
        path_of(Endpoint::Login) == "/api/auth/login"@,
        path_of(Endpoint::Register) == "/api/auth/register"@,
        path_of(Endpoint::DashboardSummary) == "/api/dashboard/summary"@,
        path_of(Endpoint::Alerts) == "/api/alerts"@,
        path_of(Endpoint::UpdateAlertStatus(id)) == "/api/alerts/"@ + uuid_text(id),
        path_of(Endpoint::Traffic) == "/api/traffic?limit=50"@,
        path_of(Endpoint::Rules) == "/api/rules"@,
        path_of(Endpoint::CreateRule) == "/api/rules"@,
        path_of(Endpoint::UpdateRule(id)) == "/api/rules/"@ + uuid_text(id),
        path_of(Endpoint::DeleteRule(id)) == "/api/rules/"@ + uuid_text(id),
        path_of(Endpoint::Devices) == "/api/devices"@,
        path_of(Endpoint::DeviceHistory(id)) == "/api/devices/"@ + uuid_text(id) + "/history"@,
        path_of(Endpoint::Blocklist) == "/api/blocklist"@,
        path_of(Endpoint::AddToBlocklist) == "/api/blocklist"@,
        path_of(Endpoint::RemoveFromBlocklist(id)) == "/api/blocklist/"@ + uuid_text(id),
        path_of(Endpoint::NotificationChannels) == "/api/notifications/channels"@,
        path_of(Endpoint::CreateNotificationChannel) == "/api/notifications/channels"@,
        path_of(Endpoint::UpdateNotificationChannel(id)) == "/api/notifications/channels/"@
            + uuid_text(id),
        path_of(Endpoint::DeleteNotificationChannel(id)) == "/api/notifications/channels/"@
            + uuid_text(id),
        path_of(Endpoint::TestNotificationChannel(id)) == "/api/notifications/test/"@ + uuid_text(
            id,
        ),
        path_of(Endpoint::ExportReport) == "/api/reports/export"@,
{
}

/// Editing and deleting a record address the same resource, which is the
/// record's identifier under its collection; creating posts to the
/// collection that listing reads; a channel's test alert goes elsewhere.
pub proof fn law_record_resources(id: u128)
    ensures
        path_of(Endpoint::UpdateRule(id)) == path_of(Endpoint::DeleteRule(id)),
        path_of(Endpoint::UpdateNotificationChannel(id)) == path_of(
            Endpoint::DeleteNotificationChannel(id),
        ),
        path_of(Endpoint::UpdateRule(id)) == path_of(Endpoint::Rules) + "/"@ + uuid_text(id),
        path_of(Endpoint::UpdateNotificationChannel(id)) == path_of(Endpoint::NotificationChannels)
            + "/"@ + uuid_text(id),
        path_of(Endpoint::RemoveFromBlocklist(id)) == path_of(Endpoint::Blocklist) + "/"@
            + uuid_text(id),
        path_of(Endpoint::UpdateAlertStatus(id)) == path_of(Endpoint::Alerts) + "/"@ + uuid_text(
            id,
        ),
        path_of(Endpoint::DeviceHistory(id)) == path_of(Endpoint::Devices) + "/"@ + uuid_text(id)
            + "/history"@,
        path_of(Endpoint::CreateRule) == path_of(Endpoint::Rules),
        path_of(Endpoint::AddToBlocklist) == path_of(Endpoint::Blocklist),
        path_of(Endpoint::CreateNotificationChannel) == path_of(Endpoint::NotificationChannels),
        path_of(Endpoint::TestNotificationChannel(id)) != path_of(
            Endpoint::UpdateNotificationChannel(id),
        ),
{
    reveal_strlit("/api/rules");
    reveal_strlit("/api/rules/");
    reveal_strlit("/api/notifications/channels");
    reveal_strlit("/api/notifications/channels/");
    reveal_strlit("/api/notifications/test/");
    reveal_strlit("/api/blocklist");
    reveal_strlit("/api/blocklist/");
    reveal_strlit("/api/alerts");
    reveal_strlit("/api/alerts/");
    reveal_strlit("/api/devices");
    reveal_strlit("/api/devices/");
    reveal_strlit("/");
    assert("/api/rules/"@ =~= "/api/rules"@ + "/"@);
    assert("/api/notifications/channels/"@ =~= "/api/notifications/channels"@ + "/"@);
    assert("/api/blocklist/"@ =~= "/api/blocklist"@ + "/"@);
    assert("/api/alerts/"@ =~= "/api/alerts"@ + "/"@);
    assert("/api/devices/"@ =~= "/api/devices"@ + "/"@);
    let t = path_of(Endpoint::TestNotificationChannel(id));
    let u = path_of(Endpoint::UpdateNotificationChannel(id));
    assert(t[19] != u[19]);
}

/// Listing reads, creating and testing post, editing patches, removing
/// deletes; every request but signing in and registering carries the
/// session token.
pub proof fn law_request_methods(id: u128, ep: Endpoint)
    ensures
        method_of(Endpoint::Login) == HttpMethod::Post,
        method_of(Endpoint::Register) == HttpMethod::Post,
        method_of(Endpoint::DashboardSummary) == HttpMethod::Get,
        method_of(Endpoint::Alerts) == HttpMethod::Get,
        method_of(Endpoint::UpdateAlertStatus(id)) == HttpMethod::Patch,
        method_of(Endpoint::Traffic) == HttpMethod::Get,
        method_of(Endpoint::Rules) == HttpMethod::Get,
        method_of(Endpoint::CreateRule) == HttpMethod::Post,
        method_of(Endpoint::UpdateRule(id)) == HttpMethod::Patch,
        method_of(Endpoint::DeleteRule(id)) == HttpMethod::Delete,
        method_of(Endpoint::Devices) == HttpMethod::Get,
        method_of(Endpoint::DeviceHistory(id)) == HttpMethod::Get,
        method_of(Endpoint::Blocklist) == HttpMethod::Get,
        method_of(Endpoint::AddToBlocklist) == HttpMethod::Post,
        method_of(Endpoint::RemoveFromBlocklist(id)) == HttpMethod::Delete,
        method_of(Endpoint::NotificationChannels) == HttpMethod::Get,
        method_of(Endpoint::CreateNotificationChannel) == HttpMethod::Post,
        method_of(Endpoint::UpdateNotificationChannel(id)) == HttpMethod::Patch,
        method_of(Endpoint::DeleteNotificationChannel(id)) == HttpMethod::Delete,
        method_of(Endpoint::TestNotificationChannel(id)) == HttpMethod::Post,
        method_of(Endpoint::ExportReport) == HttpMethod::Get,
        sends_token(ep) <==> !(ep is Login || ep is Register),
{
}

/// The page a navigation icon stands for.
pub open spec fn icon_page(icon: NavIcon) -> Page {
    match icon {
        NavIcon::Overview => Page::Dashboard,
        NavIcon::Alerts => Page::Alerts,
        NavIcon::Traffic => Page::Traffic,
        NavIcon::Rules => Page::Rules,
        NavIcon::Devices => Page::Devices,
        NavIcon::Blocklist => Page::Blocklist,
        NavIcon::Settings => Page::Settings,
    }
}

/// Whether a role's navigation has an entry that opens page `p`.
pub open spec fn nav_reaches(role: UserRole, p: Page) -> bool {
    exists|i: int| 0 <= i < nav_for(role).len() && page_of(#[trigger] nav_for(role)[i].0) == p
}

/// Every navigation entry opens the page its icon stands for; no two
/// entries open the same page; an administrator reaches every page but the
/// sign-in form, an analyst every one but the alert-channel settings, a
/// viewer neither the blocklist nor the settings.
pub proof fn law_navigation_routes(role: UserRole)
    ensures
        forall|i: int|
            0 <= i < nav_for(role).len() ==> page_of(#[trigger] nav_for(role)[i].0) == icon_page(
                nav_for(role)[i].1,
            ),
        forall|i: int, j: int|
            0 <= i < j < nav_for(role).len() ==> page_of(#[trigger] nav_for(role)[i].0) != page_of(
                #[trigger] nav_for(role)[j].0,
            ),
        forall|p: Page| p != Page::Login && role == UserRole::Admin ==> #[trigger] nav_reaches(role, p),
        forall|p: Page|
            p != Page::Login && p != Page::Settings && role == UserRole::Analyst ==> #[trigger] nav_reaches(
                role,
                p,
            ),
        role == UserRole::Viewer ==> !nav_reaches(role, Page::Blocklist) && !nav_reaches(
            role,
            Page::Settings,
        ),
        role == UserRole::Analyst ==> !nav_reaches(role, Page::Settings),
        !nav_reaches(role, Page::Login),
{
    reveal_strlit("login");
    reveal_strlit("dashboard");
    reveal_strlit("alerts");
    reveal_strlit("traffic");
    reveal_strlit("rules");
    reveal_strlit("devices");
    reveal_strlit("blocklist");
    reveal_strlit("settings");
    assert("login"@.len() == 5 && "login"@[0] == 'l');
    assert("dashboard"@.len() == 9 && "dashboard"@[0] == 'd');
    assert("alerts"@.len() == 6);
    assert("traffic"@.len() == 7 && "traffic"@[0] == 't');
    assert("rules"@.len() == 5 && "rules"@[0] == 'r');
    assert("devices"@.len() == 7 && "devices"@[0] == 'd');
    assert("blocklist"@.len() == 9 && "blocklist"@[0] == 'b');
    assert("settings"@.len() == 8);
    let n = nav_for(role);
    assert(page_of("dashboard"@) == Page::Dashboard);
    assert(page_of("alerts"@) == Page::Alerts);
    assert(page_of("traffic"@) == Page::Traffic);
    assert(page_of("rules"@) == Page::Rules);
    assert(page_of("devices"@) == Page::Devices);
    assert(page_of("blocklist"@) == Page::Blocklist);
    assert(page_of("settings"@) == Page::Settings);
    assert forall|i: int| 0 <= i < n.len() implies page_of(#[trigger] n[i].0) == icon_page(n[i].1) by {
    }
    assert forall|p: Page| p != Page::Login && role == UserRole::Admin implies #[trigger] nav_reaches(
        role,
        p,
    ) by {
        match p {
            Page::Dashboard => assert(page_of(n[0].0) == p),
            Page::Alerts => assert(page_of(n[1].0) == p),
            Page::Traffic => assert(page_of(n[2].0) == p),
            Page::Rules => assert(page_of(n[3].0) == p),
            Page::Devices => assert(page_of(n[4].0) == p),
            Page::Blocklist => assert(page_of(n[5].0) == p),
            Page::Settings => assert(page_of(n[6].0) == p),
            Page::Login => {},
        }
    }
    assert forall|p: Page|
        p != Page::Login && p != Page::Settings && role == UserRole::Analyst implies #[trigger] nav_reaches(
        role,
        p,
    ) by {
        match p {
            Page::Dashboard => assert(page_of(n[0].0) == p),
            Page::Alerts => assert(page_of(n[1].0) == p),
            Page::Traffic => assert(page_of(n[2].0) == p),
            Page::Rules => assert(page_of(n[3].0) == p),
            Page::Devices => assert(page_of(n[4].0) == p),
            Page::Blocklist => assert(page_of(n[5].0) == p),
            _ => {},
        }
    }
}

/// The throughput chart scrolls: a zero reading leaves it as it was; any
/// other reading `c` adds the sample `c % 600 + 100` at the end, and the
/// chart then holds the most recent samples in arrival order, one more than
/// before until it holds 24, after which each reading pushes out exactly the
/// oldest sample.
pub proof fn law_chart_scrolls(h: Seq<usize>, current: u64)
    ensures
        current == 0 ==> chart_after(h, current) == h,
        current > 0 ==> ({
            let r = chart_after(h, current);
            let p = h.push((current % 600 + 100) as usize);
            &&& r.len() == if h.len() >= 24 {
                h.len()
            } else {
                h.len() + 1
            }
            &&& r =~= p.subrange(p.len() - r.len(), p.len() as int)
            &&& r.last() == (current % 600 + 100) as usize
            &&& h.len() >= 24 ==> r.drop_last() =~= h.subrange(1, h.len() as int)
        }),
{
}

/// The alerts of one severity, in order.
pub open spec fn of_severity(sev: AlertSeverity) -> spec_fn(Alert) -> bool {
    |a: Alert| a.severity == sev
}

/// A severity's count is the number of alerts that have that severity.
pub proof fn law_severity_count_counts(s: Seq<Alert>, sev: AlertSeverity)
    ensures
        severity_count(s, sev) == s.filter(of_severity(sev)).len(),
    decreases s.len(),
{
    if s.len() > 0 {
        law_severity_count_counts(s.drop_last(), sev);
        s.drop_last().lemma_filter_push(s.last(), of_severity(sev));
        assert(s.drop_last().push(s.last()) =~= s);
    } else {
        assert(s.filter(of_severity(sev)).len() == 0);
    }
}

/// The dashboard's previews are the first entries of their lists, in order:
/// five of them, or all of a shorter list.
pub proof fn law_preview_is_head<T>(s: Seq<T>)
    ensures
        first_n(s, 5).len() == if s.len() < 5 {
            s.len()
        } else {
            5
        },
        forall|i: int| 0 <= i < first_n(s, 5).len() ==> #[trigger] first_n(s, 5)[i] == s[i],
{
}

/// A severity's pill text and its name are the same word up to case, no two
/// severities share a name, and every severity filter option names the
/// severity it selects, which the rule form's option of the same value
/// selects too.
pub proof fn law_severity_words(s: AlertSeverity, t: AlertSeverity, v: Seq<char>)
    ensures
        eq_ignore_ascii_case(severity_caps(s), severity_word(s)),
        s != t ==> severity_word(s) != severity_word(t),
        severity_filter_choice(v) matches Some(c) ==> eq_ignore_ascii_case(v, severity_word(c))
            && rule_severity_choice(v) == c,
{
    reveal_strlit("CRITICAL");
    reveal_strlit("HIGH");
    reveal_strlit("MEDIUM");
    reveal_strlit("LOW");
    reveal_strlit("Critical");
    reveal_strlit("High");
    reveal_strlit("Medium");
    reveal_strlit("Low");
    reveal_strlit("critical");
    reveal_strlit("high");
    reveal_strlit("medium");
    reveal_strlit("low");
    assert("Critical"@.len() == 8 && "High"@.len() == 4 && "Medium"@.len() == 6 && "Low"@.len()
        == 3);
    assert("High"@[0] != "Low"@[0]);
}

/// A live feed's URL is the page's scheme made secure exactly under
/// "https:", then "//", the page's host ("localhost:8080" when it has none)
/// and the feed's own path; the two feeds differ only in that path.
pub proof fn law_feed_urls(protocol: Option<Seq<char>>, host: Option<Seq<char>>)
    ensures
        ({
            let base = (if protocol == Some("https:"@) {
                "wss://"@
            } else {
                "ws://"@
            }) + (match host {
                Some(h) => h,
                None => "localhost:8080"@,
            });
            &&& feed_url(protocol, host, FeedChannel::Alerts) == base + "/ws/alerts"@
            &&& feed_url(protocol, host, FeedChannel::Traffic) == base + "/ws/traffic"@
            &&& feed_url(protocol, host, FeedChannel::Alerts) != feed_url(
                protocol,
                host,
                FeedChannel::Traffic,
            )
        }),
{
    reveal_strlit("wss:");
    reveal_strlit("ws:");
    reveal_strlit("//");
    reveal_strlit("wss://");
    reveal_strlit("ws://");
    reveal_strlit("/ws/alerts");
    reveal_strlit("/ws/traffic");
    assert("wss:"@ + "//"@ =~= "wss://"@);
    assert("ws:"@ + "//"@ =~= "ws://"@);
    let a = feed_url(protocol, host, FeedChannel::Alerts);
    let b = feed_url(protocol, host, FeedChannel::Traffic);
    assert(a.len() != b.len());
}

/// A traffic event of a non-negative byte count adds exactly that count to
/// the throughput counter.
pub proof fn law_throughput_adds(total: u64, bytes: i64)
    ensures
        bytes >= 0 ==> throughput_after(total, bytes) == total + bytes,
{
}

} // verus!
