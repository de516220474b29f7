use frontend::filters::{filter_alerts, filter_devices, filter_traffic};
use frontend::model::{Alert, AlertSeverity, AlertStatus, Device, Timestamp, TrafficEvent};

fn alert(id: u128, sev: AlertSeverity, st: AlertStatus, src: &str, dst: &str, title: &str) -> Alert {
    Alert {
        id,
        severity: sev,
        status: st,
        src_ip: src.to_string(),
        dst_ip: dst.to_string(),
        title: title.to_string(),
        description: String::new(),
        detected_at: Timestamp { secs: 0, nanos: 0 },
    }
}

fn sample_alerts() -> Vec<Alert> {
    vec![
        alert(1, AlertSeverity::Critical, AlertStatus::Open, "10.0.0.5", "192.168.1.1", "SSH Brute Force"),
        alert(2, AlertSeverity::Low, AlertStatus::Resolved, "172.16.0.9", "10.0.0.1", "Port Scan"),
        alert(3, AlertSeverity::Critical, AlertStatus::Acknowledged, "8.8.8.8", "10.0.0.7", "DNS Tunnel"),
    ]
}

fn ids(v: &[Alert]) -> Vec<u128> {
    v.iter().map(|a| a.id).collect()
}

#[test]
fn no_controls_show_every_alert() {
    let r = filter_alerts(sample_alerts(), None, None, "");
    assert_eq!(ids(&r), vec![1, 2, 3]);
}

#[test]
fn severity_and_status_controls() {
    assert_eq!(ids(&filter_alerts(sample_alerts(), Some(AlertSeverity::Critical), None, "")), vec![1, 3]);
    assert_eq!(
        ids(&filter_alerts(sample_alerts(), Some(AlertSeverity::Critical), Some(AlertStatus::Open), "")),
        vec![1]
    );
    assert_eq!(ids(&filter_alerts(sample_alerts(), None, Some(AlertStatus::Resolved), "")), vec![2]);
    assert!(filter_alerts(sample_alerts(), Some(AlertSeverity::Medium), None, "").is_empty());
}

#[test]
fn search_matches_addresses_or_title_ignoring_case() {
    assert_eq!(ids(&filter_alerts(sample_alerts(), None, None, "ssh")), vec![1]);
    assert_eq!(ids(&filter_alerts(sample_alerts(), None, None, "10.0.0")), vec![1, 2, 3]);
    assert_eq!(ids(&filter_alerts(sample_alerts(), None, None, "PORT")), vec![2]);
    // the source and destination are joined by one space
    assert_eq!(ids(&filter_alerts(sample_alerts(), None, None, "10.0.0.5 192")), vec![1]);
    assert!(filter_alerts(sample_alerts(), None, None, "malware").is_empty());
}

#[test]
fn search_uses_unicode_lower_case() {
    let v = vec![alert(1, AlertSeverity::High, AlertStatus::Open, "::1", "::2", "ÉTÉ Exfiltration")];
    assert_eq!(ids(&filter_alerts(v.clone(), None, None, "été")), vec![1]);
    assert_eq!(ids(&filter_alerts(v, None, None, "ÉTÉ EXF")), vec![1]);
}

fn event(id: u128, proto: &str, src: &str, dst: &str) -> TrafficEvent {
    TrafficEvent {
        id,
        time: Timestamp { secs: 0, nanos: 0 },
        src_ip: src.to_string(),
        dst_ip: dst.to_string(),
        src_port: 1000,
        dst_port: 443,
        protocol: proto.to_string(),
        bytes_transferred: 64,
        flags: String::new(),
    }
}

#[test]
fn traffic_protocol_and_search() {
    let evs = vec![
        event(1, "TCP", "10.0.0.1", "8.8.8.8"),
        event(2, "udp", "10.0.0.2", "1.1.1.1"),
        event(3, "Tcp", "192.168.0.4", "10.0.0.9"),
    ];
    let all = filter_traffic(evs.clone(), None, "");
    assert_eq!(all.iter().map(|e| e.id).collect::<Vec<_>>(), vec![1, 2, 3]);
    let tcp = filter_traffic(evs.clone(), Some("tcp".to_string()), "");
    assert_eq!(tcp.iter().map(|e| e.id).collect::<Vec<_>>(), vec![1, 3]);
    let q = filter_traffic(evs.clone(), Some("tcp".to_string()), "10.0.0.9");
    assert_eq!(q.iter().map(|e| e.id).collect::<Vec<_>>(), vec![3]);
    let none = filter_traffic(evs, Some("icmp".to_string()), "");
    assert!(none.is_empty());
}

fn device(id: u128, ip: &str, mac: Option<&str>, host: Option<&str>, kind: &str) -> Device {
    Device {
        id,
        ip_address: ip.to_string(),
        mac_address: mac.map(|s| s.to_string()),
        hostname: host.map(|s| s.to_string()),
        device_type: kind.to_string(),
        is_trusted: true,
        last_seen: Timestamp { secs: 0, nanos: 0 },
    }
}

#[test]
fn device_search_over_all_fields() {
    let ds = vec![
        device(1, "10.0.0.1", Some("AA:BB:CC:00:11:22"), Some("Gateway"), "router"),
        device(2, "10.0.0.2", None, None, "IoT Camera"),
    ];
    assert_eq!(filter_devices(ds.clone(), "").len(), 2);
    assert_eq!(filter_devices(ds.clone(), "aa:bb")[0].id, 1);
    assert_eq!(filter_devices(ds.clone(), "GATE")[0].id, 1);
    assert_eq!(filter_devices(ds.clone(), "camera")[0].id, 2);
    assert_eq!(filter_devices(ds.clone(), "10.0.0").len(), 2);
    assert!(filter_devices(ds, "printer").is_empty());
}

#[test]
fn filtering_twice_changes_nothing() {
    let once = filter_alerts(sample_alerts(), Some(AlertSeverity::Critical), None, "10.0");
    let twice = filter_alerts(once.clone(), Some(AlertSeverity::Critical), None, "10.0");
    assert_eq!(ids(&once), ids(&twice));
    assert_eq!(ids(&once), vec![1, 3]);
}
