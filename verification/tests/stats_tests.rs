use frontend::model::{Alert, AlertSeverity, AlertStatus, Timestamp, TopSource};
use frontend::stats::{
    count_by_severity, critical_count, initial_chart_history, recent_alerts, record_throughput,
    top_sources,
};

fn alert(id: u128, sev: AlertSeverity) -> Alert {
    Alert {
        id,
        severity: sev,
        status: AlertStatus::Open,
        src_ip: String::new(),
        dst_ip: String::new(),
        title: String::new(),
        description: String::new(),
        detected_at: Timestamp { secs: 0, nanos: 0 },
    }
}

#[test]
fn counts_per_severity_add_up() {
    let v = vec![
        alert(1, AlertSeverity::Critical),
        alert(2, AlertSeverity::Low),
        alert(3, AlertSeverity::Critical),
        alert(4, AlertSeverity::Medium),
        alert(5, AlertSeverity::High),
        alert(6, AlertSeverity::Low),
    ];
    let c = count_by_severity(&v);
    assert_eq!((c.critical, c.high, c.medium, c.low), (2, 1, 1, 2));
    assert_eq!(c.critical + c.high + c.medium + c.low, v.len());
    assert_eq!(critical_count(&v), 2);
    assert_eq!(critical_count(&Vec::new()), 0);
}

#[test]
fn recent_preview_takes_five() {
    let v: Vec<Alert> = (0..8).map(|i| alert(i, AlertSeverity::Low)).collect();
    let r = recent_alerts(v);
    assert_eq!(r.iter().map(|a| a.id).collect::<Vec<_>>(), vec![0, 1, 2, 3, 4]);
    let short = recent_alerts(vec![alert(9, AlertSeverity::High)]);
    assert_eq!(short.len(), 1);
}

#[test]
fn top_sources_takes_five() {
    let v: Vec<TopSource> =
        (0..7).map(|i| TopSource { key: format!("10.0.0.{}", i), count: i, bytes: 2048 }).collect();
    let r = top_sources(v);
    assert_eq!(r.len(), 5);
    assert_eq!(r[4].key, "10.0.0.4");
}

#[test]
fn chart_history_window() {
    let mut h = initial_chart_history();
    assert_eq!(h, vec![120, 180, 140, 220, 310, 280, 350, 420, 390, 500]);
    record_throughput(&mut h, 0);
    assert_eq!(h.len(), 10);
    record_throughput(&mut h, 1250);
    assert_eq!(h.len(), 11);
    assert_eq!(*h.last().unwrap(), 1250 % 600 + 100);
    for i in 1..40u64 {
        record_throughput(&mut h, i * 97);
        assert!(h.len() <= 24);
        let last = *h.last().unwrap();
        assert!((100..700).contains(&last));
    }
    assert_eq!(h.len(), 24);
    assert_eq!(*h.last().unwrap(), (39 * 97) % 600 + 100);
}
