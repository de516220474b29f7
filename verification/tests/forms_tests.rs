use frontend::forms::{
    block_request, channel_request, channel_type_option, new_rule_condition, role_option,
    rule_severity_option, rule_type_option, severity_filter, status_filter, test_outcome_message,
    toggle_message, toggled, BLOCK_DURATION_SECONDS,
};
use frontend::model::{AlertSeverity, AlertStatus, ChannelType, RuleType, UserRole};

#[test]
fn table_filters() {
    assert_eq!(severity_filter("critical"), Some(AlertSeverity::Critical));
    assert_eq!(severity_filter("low"), Some(AlertSeverity::Low));
    assert_eq!(severity_filter("all"), None);
    assert_eq!(status_filter("acknowledged"), Some(AlertStatus::Acknowledged));
    assert_eq!(status_filter("all"), None);
}

#[test]
fn rule_form_options() {
    assert_eq!(rule_type_option("pattern"), RuleType::Pattern);
    assert_eq!(rule_type_option("anomaly"), RuleType::Anomaly);
    assert_eq!(rule_type_option("threshold"), RuleType::Threshold);
    assert_eq!(rule_severity_option("high"), AlertSeverity::High);
    assert_eq!(rule_severity_option("whatever"), AlertSeverity::Low);
    let c = new_rule_condition();
    assert_eq!((c.metric.as_str(), c.operator.as_str()), ("packet_rate", ">="));
    assert!(!toggled(true));
    assert_eq!(toggle_message(true), "Rule successfully enabled");
    assert_eq!(toggle_message(false), "Rule successfully disabled");
}

#[test]
fn channel_and_role_options() {
    assert_eq!(channel_type_option("telegram"), ChannelType::Telegram);
    assert_eq!(channel_type_option("email"), ChannelType::Email);
    assert_eq!(channel_type_option("slack"), ChannelType::Webhook);
    assert_eq!(role_option("admin"), UserRole::Admin);
    assert_eq!(role_option("analyst"), UserRole::Analyst);
    assert_eq!(role_option("viewer"), UserRole::Viewer);
}

#[test]
fn requests() {
    let b = block_request("10.0.0.0/24".to_string(), "scan".to_string());
    assert_eq!(b.duration_seconds, Some(86400));
    assert_eq!(BLOCK_DURATION_SECONDS, 86400);
    assert_eq!(b.ip_address, "10.0.0.0/24");
    let c = channel_request("SOC".to_string(), ChannelType::Webhook, "https://hooks.example.com/a".to_string());
    assert_eq!(c.secret, "secnet_sign_key");
    assert_eq!(c.min_severity, AlertSeverity::High);
    assert_eq!(c.is_enabled, Some(true));
    assert_eq!(c.url, "https://hooks.example.com/a");
}

#[test]
fn test_notification_message() {
    assert_eq!(test_outcome_message(Ok("sent".to_string())), "sent");
    assert_eq!(test_outcome_message(Err("timeout".to_string())), "timeout");
}
