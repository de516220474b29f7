//! What the tables and cards show for a record: names, badges, the next
//! triage step of an incident, and the texts built from a record's fields.

use vstd::prelude::*;
use crate::model::{AlertSeverity, AlertStatus, ChannelType, Device, RuleType, TrafficEvent};
use crate::text::{decimal_text, push_char, push_decimal, push_str, str_eq, to_uppercase, uppercase_text};

verus! {

/// A severity in capitals, as the tables' pills show it.
pub open spec fn severity_caps(s: AlertSeverity) -> Seq<char> {
    match s {
        AlertSeverity::Critical => "CRITICAL"@,
        AlertSeverity::High => "HIGH"@,
        AlertSeverity::Medium => "MEDIUM"@,
        AlertSeverity::Low => "LOW"@,
    }
}

/// The severity pill's text.
pub fn severity_label(s: AlertSeverity) -> (r: &'static str)
    ensures
        r@ == severity_caps(s),
{
    match s {
        AlertSeverity::Critical => "CRITICAL",
        AlertSeverity::High => "HIGH",
        AlertSeverity::Medium => "MEDIUM",
        AlertSeverity::Low => "LOW",
    }
}

/// The name of a severity as written in the toast ("Critical", ...).
pub open spec fn severity_word(s: AlertSeverity) -> Seq<char> {
    match s {
        AlertSeverity::Critical => "Critical"@,
        AlertSeverity::High => "High"@,
        AlertSeverity::Medium => "Medium"@,
        AlertSeverity::Low => "Low"@,
    }
}

/// The name of a severity.
pub fn severity_name(s: AlertSeverity) -> (r: &'static str)
    ensures
        r@ == severity_word(s),
{
    match s {
        AlertSeverity::Critical => "Critical",
        AlertSeverity::High => "High",
        AlertSeverity::Medium => "Medium",
        AlertSeverity::Low => "Low",
    }
}

/// A status in capitals, as the incident table shows it.
pub fn status_label(s: AlertStatus) -> (r: &'static str)
    ensures
        r@ == match s {
            AlertStatus::Open => "OPEN"@,
            AlertStatus::Acknowledged => "ACKNOWLEDGED"@,
            AlertStatus::Resolved => "RESOLVED"@,
        },
{
    match s {
        AlertStatus::Open => "OPEN",
        AlertStatus::Acknowledged => "ACKNOWLEDGED",
        AlertStatus::Resolved => "RESOLVED",
    }
}

/// The style classes of a severity pill, the same in every table.
pub fn severity_badge(s: AlertSeverity) -> (r: &'static str)
    ensures
        r@ == match s {
            AlertSeverity::Critical => "bg-sev-critical/10 text-sev-critical border-sev-critical/30"@,
            AlertSeverity::High => "bg-sev-high/10 text-sev-high border-sev-high/30"@,
            AlertSeverity::Medium => "bg-sev-medium/10 text-sev-medium border-sev-medium/30"@,
            AlertSeverity::Low => "bg-sev-low/10 text-sev-low border-sev-low/30"@,
        },
{
    match s {
        AlertSeverity::Critical => "bg-sev-critical/10 text-sev-critical border-sev-critical/30",
        AlertSeverity::High => "bg-sev-high/10 text-sev-high border-sev-high/30",
        AlertSeverity::Medium => "bg-sev-medium/10 text-sev-medium border-sev-medium/30",
        AlertSeverity::Low => "bg-sev-low/10 text-sev-low border-sev-low/30",
    }
}

/// The style classes of a status pill.
pub fn status_badge(s: AlertStatus) -> (r: &'static str)
    ensures
        r@ == match s {
            AlertStatus::Open => "bg-sev-critical/10 text-sev-critical border border-sev-critical/20"@,
            AlertStatus::Acknowledged => "bg-sev-high/10 text-sev-high border border-sev-high/20"@,
            AlertStatus::Resolved => "bg-brand/10 text-brand border border-brand/20"@,
        },
{
    match s {
        AlertStatus::Open => "bg-sev-critical/10 text-sev-critical border border-sev-critical/20",
        AlertStatus::Acknowledged => "bg-sev-high/10 text-sev-high border border-sev-high/20",
        AlertStatus::Resolved => "bg-brand/10 text-brand border border-brand/20",
    }
}

/// The triage step an incident offers: the status it moves to and the
/// button's label; a resolved incident is closed and offers none.
pub open spec fn next_step(s: AlertStatus) -> Option<(AlertStatus, Seq<char>)> {
    match s {
        AlertStatus::Open => Some((AlertStatus::Acknowledged, "Acknowledge"@)),
        AlertStatus::Acknowledged => Some((AlertStatus::Resolved, "Resolve"@)),
        AlertStatus::Resolved => None,
    }
}

/// The triage step offered for an incident in status `s`.
pub fn next_action(s: AlertStatus) -> (r: Option<(AlertStatus, &'static str)>)
    ensures
        r is None <==> next_step(s) is None,
        r matches Some(p) ==> next_step(s) == Some((p.0, p.1@)),
{
    match s {
        AlertStatus::Open => Some((AlertStatus::Acknowledged, "Acknowledge")),
        AlertStatus::Acknowledged => Some((AlertStatus::Resolved, "Resolve")),
        AlertStatus::Resolved => None,
    }
}

/// Whether a pushed alert sounds the alarm: only critical ones do.
pub fn sounds_alarm(s: AlertSeverity) -> (r: bool)
    ensures
        r == (s == AlertSeverity::Critical),
{
    s == AlertSeverity::Critical
}

/// The toast's accent and text colours: the critical ones for a critical
/// alert, the brand ones otherwise.
pub fn toast_colors(s: AlertSeverity) -> (r: (&'static str, &'static str))
    ensures
        s == AlertSeverity::Critical ==> r.0@ == "border-l-sev-critical"@ && r.1@
            == "text-sev-critical"@,
        s != AlertSeverity::Critical ==> r.0@ == "border-l-brand"@ && r.1@ == "text-brand"@,
{
    if s == AlertSeverity::Critical {
        ("border-l-sev-critical", "text-sev-critical")
    } else {
        ("border-l-brand", "text-brand")
    }
}

/// The toast's heading: "new Critical alert" and so on.
pub fn toast_heading(s: AlertSeverity) -> (r: String)
    ensures
        r@ == "new "@ + severity_word(s) + " alert"@,
{
    let mut h = String::new();
    push_str(&mut h, "new ");
    push_str(&mut h, severity_name(s));
    push_str(&mut h, " alert");
    h
}

/// A rule type in capitals.
pub fn rule_type_label(t: RuleType) -> (r: &'static str)
    ensures
        r@ == match t {
            RuleType::Threshold => "THRESHOLD"@,
            RuleType::Pattern => "PATTERN"@,
            RuleType::Anomaly => "ANOMALY"@,
        },
{
    match t {
        RuleType::Threshold => "THRESHOLD",
        RuleType::Pattern => "PATTERN",
        RuleType::Anomaly => "ANOMALY",
    }
}

/// How a channel's transport is named on its card.
pub fn channel_type_label(t: ChannelType) -> (r: &'static str)
    ensures
        r@ == match t {
            ChannelType::Email => "Email (SMTP)"@,
            ChannelType::Webhook => "Webhook"@,
            ChannelType::Telegram => "Telegram bot"@,
            ChannelType::Slack => "Slack"@,
        },
{
    match t {
        ChannelType::Email => "Email (SMTP)",
        ChannelType::Webhook => "Webhook",
        ChannelType::Telegram => "Telegram bot",
        ChannelType::Slack => "Slack",
    }
}

/// The style classes of a protocol pill, chosen by the protocol in capitals.
pub open spec fn protocol_class(upper: Seq<char>) -> Seq<char> {
    if upper == "TCP"@ {
        "bg-brand/10 text-brand border-brand/30"@
    } else if upper == "UDP"@ {
        "bg-sev-medium/10 text-sev-medium border-sev-medium/30"@
    } else if upper == "ICMP"@ {
        "bg-sev-high/10 text-sev-high border-sev-high/30"@
    } else if upper == "DNS"@ {
        "bg-brand-light/10 text-brand-light border-brand-light/30"@
    } else if upper == "ARP"@ {
        "bg-sev-critical/10 text-sev-critical border-sev-critical/30"@
    } else {
        "bg-sev-low/10 text-sev-low border-sev-low/30"@
    }
}

/// A protocol pill: the protocol in capitals and its style classes.
pub fn protocol_badge(protocol: &str) -> (r: (String, &'static str))
    ensures
        r.0@ == uppercase_text(protocol@),
        r.1@ == protocol_class(uppercase_text(protocol@)),
{
    let upper = to_uppercase(protocol);
    let class = if str_eq(upper.as_str(), "TCP") {
        "bg-brand/10 text-brand border-brand/30"
    } else if str_eq(upper.as_str(), "UDP") {
        "bg-sev-medium/10 text-sev-medium border-sev-medium/30"
    } else if str_eq(upper.as_str(), "ICMP") {
        "bg-sev-high/10 text-sev-high border-sev-high/30"
    } else if str_eq(upper.as_str(), "DNS") {
        "bg-brand-light/10 text-brand-light border-brand-light/30"
    } else if str_eq(upper.as_str(), "ARP") {
        "bg-sev-critical/10 text-sev-critical border-sev-critical/30"
    } else {
        "bg-sev-low/10 text-sev-low border-sev-low/30"
    };
    (upper, class)
}

/// Whether a protocol tab is the selected one: the chosen protocol equals
/// the tab's, "no protocol" standing for the "ALL" tab.
pub fn protocol_tab_selected(selected: &Option<String>, tab: Option<&str>) -> (r: bool)
    ensures
        r == match (selected, tab) {
            (Some(s), Some(t)) => s@ == t@,
            (None, None) => true,
            _ => false,
        },
{
    match (selected, tab) {
        (Some(s), Some(t)) => str_eq(s.as_str(), t),
        (None, None) => true,
        _ => false,
    }
}

/// The decimal text of a signed number, with a minus sign when negative.
pub open spec fn signed_decimal_text(n: int) -> Seq<char> {
    if n < 0 {
        seq!['-'] + decimal_text((-n) as nat)
    } else {
        decimal_text(n as nat)
    }
}

/// Appends the decimal text of a signed number.
pub fn push_signed(s: &mut String, n: i64)
    ensures
        final(s)@ == old(s)@ + signed_decimal_text(n as int),
{
    if n < 0 {
        push_char(s, '-');
        let m: u64 = if n == i64::MIN {
            9223372036854775808u64
        } else {
            (-n) as u64
        };
        push_decimal(s, m);
        assert(final(s)@ =~= old(s)@ + signed_decimal_text(n as int));
    } else {
        push_decimal(s, n as u64);
    }
}

/// The far end of a flow seen from a device: "-> destination:port" for a
/// flow the device sent, "<- source:port" for one it received.
pub open spec fn peer_text(ev: TrafficEvent, device_ip: Seq<char>) -> Seq<char> {
    if ev.src_ip@ == device_ip {
        "-> "@ + ev.dst_ip@ + ":"@ + signed_decimal_text(ev.dst_port as int)
    } else {
        "<- "@ + ev.src_ip@ + ":"@ + signed_decimal_text(ev.src_port as int)
    }
}

/// The peer column of a device's traffic history.
pub fn peer_of(ev: &TrafficEvent, device_ip: &str) -> (r: String)
    ensures
        r@ == peer_text(*ev, device_ip@),
{
    let mut p = String::new();
    if str_eq(ev.src_ip.as_str(), device_ip) {
        push_str(&mut p, "-> ");
        push_str(&mut p, ev.dst_ip.as_str());
        push_str(&mut p, ":");
        push_signed(&mut p, ev.dst_port as i64);
    } else {
        push_str(&mut p, "<- ");
        push_str(&mut p, ev.src_ip.as_str());
        push_str(&mut p, ":");
        push_signed(&mut p, ev.src_port as i64);
    }
    p
}

/// An optional field's text, or `default` when absent.
pub fn text_or(field: &Option<String>, default: &str) -> (r: String)
    ensures
        field matches Some(f) ==> r@ == f@,
        field is None ==> r@ == default@,
{
    match field {
        Some(f) => f.clone(),
        None => default.to_owned(),
    }
}

/// The device modal's subtitle: "host: NAME · mac: MAC", "unknown" and "-"
/// standing for absent fields.
pub fn device_subtitle(d: &Device) -> (r: String)
    ensures
        r@ == "host: "@ + (match d.hostname {
            Some(h) => h@,
            None => "unknown"@,
        }) + " · mac: "@ + (match d.mac_address {
            Some(m) => m@,
            None => "-"@,
        }),
{
    let mut s = String::new();
    push_str(&mut s, "host: ");
    let h = text_or(&d.hostname, "unknown");
    push_str(&mut s, h.as_str());
    push_str(&mut s, " · mac: ");
    let m = text_or(&d.mac_address, "-");
    push_str(&mut s, m.as_str());
    s
}

/// A device's trust pill: its text and style classes.
pub fn trust_badge(is_trusted: bool) -> (r: (&'static str, &'static str))
    ensures
        is_trusted ==> r.0@ == "TRUSTED"@ && r.1@ == "bg-brand/10 text-brand border border-brand/20"@,
        !is_trusted ==> r.0@ == "UNTRUSTED"@ && r.1@
            == "bg-sev-high/10 text-sev-high border border-sev-high/20"@,
{
    if is_trusted {
        ("TRUSTED", "bg-brand/10 text-brand border border-brand/20")
    } else {
        ("UNTRUSTED", "bg-sev-high/10 text-sev-high border border-sev-high/20")
    }
}

/// The classes of an icon: those given, else the default size.
pub fn icon_class(class: Option<String>) -> (r: String)
    ensures
        class matches Some(c) ==> r == c,
        class is None ==> r@ == "w-4 h-4"@,
{
    match class {
        Some(c) => c,
        None => "w-4 h-4".to_owned(),
    }
}

/// Whole kibibytes in a byte count, rounded toward zero as integer division.
pub fn kilobytes(bytes: i64) -> (r: i64)
    ensures
        bytes >= 0 ==> r == bytes / 1024,
        bytes < 0 ==> r == -((-bytes) / 1024),
{
    bytes / 1024
}

} // verus!
