//! The console's form controls: what each select option stands for, and
//! the requests the forms send.

use vstd::prelude::*;
use crate::model::{
    AlertSeverity, AlertStatus, ChannelType, CreateBlockedIpDto, CreateNotificationChannelDto,
    RuleCondition, RuleType, UserRole,
};
use crate::text::str_eq;

verus! {

/// The incident table's severity filter: one severity, or none for "all".
pub open spec fn severity_filter_choice(v: Seq<char>) -> Option<AlertSeverity> {
    if v == "critical"@ {
        Some(AlertSeverity::Critical)
    } else if v == "high"@ {
        Some(AlertSeverity::High)
    } else if v == "medium"@ {
        Some(AlertSeverity::Medium)
    } else if v == "low"@ {
        Some(AlertSeverity::Low)
    } else {
        None
    }
}

/// Reads the incident table's severity filter option.
pub fn severity_filter(v: &str) -> (r: Option<AlertSeverity>)
    ensures
        r == severity_filter_choice(v@),
{
    if str_eq(v, "critical") {
        Some(AlertSeverity::Critical)
    } else if str_eq(v, "high") {
        Some(AlertSeverity::High)
    } else if str_eq(v, "medium") {
        Some(AlertSeverity::Medium)
    } else if str_eq(v, "low") {
        Some(AlertSeverity::Low)
    } else {
        None
    }
}

/// The incident table's status filter: one status, or none for "all".
pub open spec fn status_filter_choice(v: Seq<char>) -> Option<AlertStatus> {
    if v == "open"@ {
        Some(AlertStatus::Open)
    } else if v == "acknowledged"@ {
        Some(AlertStatus::Acknowledged)
    } else if v == "resolved"@ {
        Some(AlertStatus::Resolved)
    } else {
        None
    }
}

/// Reads the incident table's status filter option.
pub fn status_filter(v: &str) -> (r: Option<AlertStatus>)
    ensures
        r == status_filter_choice(v@),
{
    if str_eq(v, "open") {
        Some(AlertStatus::Open)
    } else if str_eq(v, "acknowledged") {
        Some(AlertStatus::Acknowledged)
    } else if str_eq(v, "resolved") {
        Some(AlertStatus::Resolved)
    } else {
        None
    }
}

/// The new-rule form's type option; anything unknown is a threshold rule.
pub open spec fn rule_type_choice(v: Seq<char>) -> RuleType {
    if v == "pattern"@ {
        RuleType::Pattern
    } else if v == "anomaly"@ {
        RuleType::Anomaly
    } else {
        RuleType::Threshold
    }
}

/// Reads the new-rule form's type option.
pub fn rule_type_option(v: &str) -> (r: RuleType)
    ensures
        r == rule_type_choice(v@),
{
    if str_eq(v, "pattern") {
        RuleType::Pattern
    } else if str_eq(v, "anomaly") {
        RuleType::Anomaly
    } else {
        RuleType::Threshold
    }
}

/// The new-rule form's severity option; anything unknown is low.
pub open spec fn rule_severity_choice(v: Seq<char>) -> AlertSeverity {
    if v == "critical"@ {
        AlertSeverity::Critical
    } else if v == "high"@ {
        AlertSeverity::High
    } else if v == "medium"@ {
        AlertSeverity::Medium
    } else {
        AlertSeverity::Low
    }
}

/// Reads the new-rule form's severity option.
pub fn rule_severity_option(v: &str) -> (r: AlertSeverity)
    ensures
        r == rule_severity_choice(v@),
{
    if str_eq(v, "critical") {
        AlertSeverity::Critical
    } else if str_eq(v, "high") {
        AlertSeverity::High
    } else if str_eq(v, "medium") {
        AlertSeverity::Medium
    } else {
        AlertSeverity::Low
    }
}

/// The channel form's type option; anything unknown is a webhook.
pub open spec fn channel_type_choice(v: Seq<char>) -> ChannelType {
    if v == "webhook"@ {
        ChannelType::Webhook
    } else if v == "telegram"@ {
        ChannelType::Telegram
    } else if v == "email"@ {
        ChannelType::Email
    } else {
        ChannelType::Webhook
    }
}

/// Reads the channel form's type option.
pub fn channel_type_option(v: &str) -> (r: ChannelType)
    ensures
        r == channel_type_choice(v@),
{
    if str_eq(v, "webhook") {
        ChannelType::Webhook
    } else if str_eq(v, "telegram") {
        ChannelType::Telegram
    } else if str_eq(v, "email") {
        ChannelType::Email
    } else {
        ChannelType::Webhook
    }
}

/// The registration form's role option; anything unknown is a viewer.
pub open spec fn role_choice(v: Seq<char>) -> UserRole {
    if v == "admin"@ {
        UserRole::Admin
    } else if v == "analyst"@ {
        UserRole::Analyst
    } else {
        UserRole::Viewer
    }
}

/// Reads the registration form's role option.
pub fn role_option(v: &str) -> (r: UserRole)
    ensures
        r == role_choice(v@),
{
    if str_eq(v, "admin") {
        UserRole::Admin
    } else if str_eq(v, "analyst") {
        UserRole::Analyst
    } else {
        UserRole::Viewer
    }
}

/// How long an address stays blocked when blocked from the console: a day.
pub const BLOCK_DURATION_SECONDS: i64 = 86400;

/// The request the block form sends.
pub fn block_request(ip_address: String, reason: String) -> (r: CreateBlockedIpDto)
    ensures
        r.ip_address == ip_address,
        r.reason == reason,
        r.duration_seconds == Some(BLOCK_DURATION_SECONDS),
{
    CreateBlockedIpDto { ip_address, reason, duration_seconds: Some(BLOCK_DURATION_SECONDS) }
}

/// The key every channel created from the console signs its payloads with.
pub open spec fn channel_secret() -> Seq<char> {
    "secnet_sign_key"@
}

/// The request the channel form sends: enabled, for high-severity alerts
/// and above, posting to `url` and signed with the console's key.
pub fn channel_request(name: String, channel_type: ChannelType, url: String) -> (r:
    CreateNotificationChannelDto)
    ensures
        r.name == name,
        r.channel_type == channel_type,
        r.url == url,
        r.secret@ == channel_secret(),
        r.min_severity == AlertSeverity::High,
        r.is_enabled == Some(true),
{
    CreateNotificationChannelDto {
        name,
        channel_type,
        url,
        secret: "secnet_sign_key".to_owned(),
        min_severity: AlertSeverity::High,
        is_enabled: Some(true),
    }
}

/// The condition of a rule created from the console: packet rate at or
/// above the threshold.
pub fn new_rule_condition() -> (r: RuleCondition)
    ensures
        r.metric@ == "packet_rate"@,
        r.operator@ == ">="@,
{
    RuleCondition { metric: "packet_rate".to_owned(), operator: ">=".to_owned() }
}

/// The state a rule's toggle switches to.
pub fn toggled(enabled: bool) -> (r: bool)
    ensures
        r == !enabled,
{
    !enabled
}

/// The confirmation shown after a rule was switched on or off.
pub fn toggle_message(now_enabled: bool) -> (r: &'static str)
    ensures
        r@ == if now_enabled {
            "Rule successfully enabled"@
        } else {
            "Rule successfully disabled"@
        },
{
    if now_enabled {
        "Rule successfully enabled"
    } else {
        "Rule successfully disabled"
    }
}

/// The message shown after a test notification: the server's reply either way.
pub fn test_outcome_message(outcome: Result<String, String>) -> (r: String)
    ensures
        outcome matches Ok(m) ==> r == m,
        outcome matches Err(e) ==> r == e,
{
    match outcome {
        Ok(m) => m,
        Err(e) => e,
    }
}

} // verus!
