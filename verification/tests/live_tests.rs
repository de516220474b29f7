use frontend::live::{
    feed_url_for, link_up_after, receive_alert, receive_traffic, reconnect_delay_ms, FeedChannel,
    SocketEvent, ALERT_FEED_CAP, TRAFFIC_FEED_CAP,
};
use frontend::model::{Alert, AlertSeverity, AlertStatus, Timestamp, TrafficEvent};

#[test]
fn feed_urls() {
    assert_eq!(
        feed_url_for(Some("https:".to_string()), Some("soc.example.com".to_string()), FeedChannel::Alerts),
        "wss://soc.example.com/ws/alerts"
    );
    assert_eq!(
        feed_url_for(Some("http:".to_string()), Some("10.0.0.2:3000".to_string()), FeedChannel::Traffic),
        "ws://10.0.0.2:3000/ws/traffic"
    );
    assert_eq!(feed_url_for(None, None, FeedChannel::Alerts), "ws://localhost:8080/ws/alerts");
}

#[test]
fn link_badge_follows_socket_events() {
    assert!(link_up_after(SocketEvent::Opened));
    assert!(!link_up_after(SocketEvent::Closed));
    assert!(!link_up_after(SocketEvent::Failed));
    assert!(!link_up_after(SocketEvent::CouldNotConnect));
}

#[test]
fn reconnect_waits() {
    assert_eq!(reconnect_delay_ms(false), 3000);
    assert_eq!(reconnect_delay_ms(true), 5000);
}

fn alert(id: u128) -> Alert {
    Alert {
        id,
        severity: AlertSeverity::High,
        status: AlertStatus::Open,
        src_ip: String::new(),
        dst_ip: String::new(),
        title: String::new(),
        description: String::new(),
        detected_at: Timestamp { secs: 0, nanos: 0 },
    }
}

#[test]
fn alert_feed_keeps_the_latest_hundred() {
    let mut feed = Vec::new();
    for i in 0..150u128 {
        receive_alert(&mut feed, alert(i));
    }
    assert_eq!(feed.len(), ALERT_FEED_CAP);
    assert_eq!(feed[0].id, 149);
    assert_eq!(feed[99].id, 50);
}

fn event(id: u128, bytes: i64) -> TrafficEvent {
    TrafficEvent {
        id,
        time: Timestamp { secs: 0, nanos: 0 },
        src_ip: String::new(),
        dst_ip: String::new(),
        src_port: 0,
        dst_port: 0,
        protocol: "tcp".to_string(),
        bytes_transferred: bytes,
        flags: String::new(),
    }
}

#[test]
fn traffic_feed_counts_bytes_and_keeps_fifty() {
    let mut feed = Vec::new();
    let mut total = 0u64;
    for i in 0..60u128 {
        receive_traffic(&mut feed, &mut total, event(i, 100));
    }
    assert_eq!(total, 6000);
    assert_eq!(feed.len(), TRAFFIC_FEED_CAP);
    assert_eq!(feed[0].id, 59);
    assert_eq!(feed[49].id, 10);
}

#[test]
fn negative_byte_count_is_taken_as_unsigned() {
    let mut feed = Vec::new();
    let mut total = 0u64;
    receive_traffic(&mut feed, &mut total, event(1, -1));
    assert_eq!(total, u64::MAX);
}
