use frontend::labels::{
    channel_type_label, device_subtitle, icon_class, kilobytes, next_action, peer_of,
    protocol_badge, protocol_tab_selected, rule_type_label, severity_badge, severity_label,
    severity_name, sounds_alarm, status_badge, status_label, text_or, toast_colors, toast_heading,
    trust_badge,
};
use frontend::model::{AlertSeverity, AlertStatus, ChannelType, Device, RuleType, Timestamp, TrafficEvent};

#[test]
fn severity_and_status_texts() {
    assert_eq!(severity_label(AlertSeverity::Critical), "CRITICAL");
    assert_eq!(severity_label(AlertSeverity::Low), "LOW");
    assert_eq!(severity_name(AlertSeverity::Medium), "Medium");
    assert_eq!(status_label(AlertStatus::Acknowledged), "ACKNOWLEDGED");
    assert_eq!(severity_badge(AlertSeverity::High), "bg-sev-high/10 text-sev-high border-sev-high/30");
    assert_eq!(status_badge(AlertStatus::Resolved), "bg-brand/10 text-brand border border-brand/20");
    assert_eq!(rule_type_label(RuleType::Anomaly), "ANOMALY");
    assert_eq!(channel_type_label(ChannelType::Email), "Email (SMTP)");
    assert_eq!(channel_type_label(ChannelType::Telegram), "Telegram bot");
}

#[test]
fn triage_steps() {
    assert_eq!(next_action(AlertStatus::Open), Some((AlertStatus::Acknowledged, "Acknowledge")));
    assert_eq!(next_action(AlertStatus::Acknowledged), Some((AlertStatus::Resolved, "Resolve")));
    assert_eq!(next_action(AlertStatus::Resolved), None);
}

#[test]
fn toast_decisions() {
    assert!(sounds_alarm(AlertSeverity::Critical));
    assert!(!sounds_alarm(AlertSeverity::High));
    assert_eq!(toast_colors(AlertSeverity::Critical), ("border-l-sev-critical", "text-sev-critical"));
    assert_eq!(toast_colors(AlertSeverity::Low), ("border-l-brand", "text-brand"));
    assert_eq!(toast_heading(AlertSeverity::Critical), "new Critical alert");
}

#[test]
fn protocol_pills_and_tabs() {
    let (t, c) = protocol_badge("tcp");
    assert_eq!(t, "TCP");
    assert_eq!(c, "bg-brand/10 text-brand border-brand/30");
    let (t, c) = protocol_badge("Arp");
    assert_eq!(t, "ARP");
    assert_eq!(c, "bg-sev-critical/10 text-sev-critical border-sev-critical/30");
    assert_eq!(protocol_badge("quic").1, "bg-sev-low/10 text-sev-low border-sev-low/30");
    assert!(protocol_tab_selected(&None, None));
    assert!(protocol_tab_selected(&Some("udp".to_string()), Some("udp")));
    assert!(!protocol_tab_selected(&Some("udp".to_string()), Some("tcp")));
    assert!(!protocol_tab_selected(&None, Some("tcp")));
}

fn event(src: &str, sp: i32, dst: &str, dp: i32) -> TrafficEvent {
    TrafficEvent {
        id: 1,
        time: Timestamp { secs: 0, nanos: 0 },
        src_ip: src.to_string(),
        dst_ip: dst.to_string(),
        src_port: sp,
        dst_port: dp,
        protocol: "tcp".to_string(),
        bytes_transferred: 1,
        flags: String::new(),
    }
}

#[test]
fn device_views() {
    assert_eq!(peer_of(&event("10.0.0.2", 5555, "1.1.1.1", 53), "10.0.0.2"), "-> 1.1.1.1:53");
    assert_eq!(peer_of(&event("8.8.8.8", 443, "10.0.0.2", 50000), "10.0.0.2"), "<- 8.8.8.8:443");
    assert_eq!(peer_of(&event("8.8.8.8", -1, "10.0.0.2", 0), "10.0.0.2"), "<- 8.8.8.8:-1");
    let d = Device {
        id: 1,
        ip_address: "10.0.0.2".to_string(),
        mac_address: None,
        hostname: Some("cam".to_string()),
        device_type: "iot".to_string(),
        is_trusted: false,
        last_seen: Timestamp { secs: 0, nanos: 0 },
    };
    assert_eq!(device_subtitle(&d), "host: cam · mac: -");
    assert_eq!(text_or(&d.hostname, "Unknown"), "cam");
    assert_eq!(text_or(&d.mac_address, "-"), "-");
    assert_eq!(trust_badge(false).0, "UNTRUSTED");
    assert_eq!(trust_badge(true).0, "TRUSTED");
}

#[test]
fn icon_and_sizes() {
    assert_eq!(icon_class(None), "w-4 h-4");
    assert_eq!(icon_class(Some("w-3 h-3".to_string())), "w-3 h-3");
    assert_eq!(kilobytes(4096), 4);
    assert_eq!(kilobytes(1023), 0);
    assert_eq!(kilobytes(-2048), -2);
}
