//! The live WebSocket feeds: where they connect, what the link badge
//! shows, how long the reconnect loop waits, and how a pushed record
//! enters the bounded lists.

use vstd::prelude::*;
use crate::lists::{prepend_bounded, prepended_bounded};
use crate::model::{Alert, TrafficEvent};
use crate::text::{opt_view, push_str, str_eq};

verus! {

/// The two live feeds the console subscribes to.
#[derive(Clone, Copy, Debug, PartialEq, Eq, Structural)]
pub enum FeedChannel {
    Alerts,
    Traffic,
}

/// The path of a feed on the server.
pub open spec fn feed_path(channel: FeedChannel) -> Seq<char> {
    match channel {
        FeedChannel::Alerts => "/ws/alerts"@,
        FeedChannel::Traffic => "/ws/traffic"@,
    }
}

/// The WebSocket scheme for a page protocol: secure only under "https:".
pub open spec fn ws_scheme(protocol: Option<Seq<char>>) -> Seq<char> {
    if protocol == Some("https:"@) {
        "wss:"@
    } else {
        "ws:"@
    }
}

/// The host to connect to, "localhost:8080" when the page has none.
pub open spec fn ws_host(host: Option<Seq<char>>) -> Seq<char> {
    match host {
        Some(h) => h,
        None => "localhost:8080"@,
    }
}

/// The URL of a feed for a page served under `protocol` from `host`.
pub open spec fn feed_url(
    protocol: Option<Seq<char>>,
    host: Option<Seq<char>>,
    channel: FeedChannel,
) -> Seq<char> {
    ws_scheme(protocol) + "//"@ + ws_host(host) + feed_path(channel)
}

/// The URL a feed connects to; `protocol` and `host` are those of the page,
/// `None` where the page could not report them.
pub fn feed_url_for(protocol: Option<String>, host: Option<String>, channel: FeedChannel) -> (r:
    String)
    ensures
        r@ == feed_url(opt_view(protocol), opt_view(host), channel),
{
    let mut url = String::new();
    let secure = match &protocol {
        Some(p) => str_eq(p.as_str(), "https:"),
        None => false,
    };
    if secure {
        push_str(&mut url, "wss:");
    } else {
        push_str(&mut url, "ws:");
    }
    push_str(&mut url, "//");
    match &host {
        Some(h) => push_str(&mut url, h.as_str()),
        None => push_str(&mut url, "localhost:8080"),
    }
    match channel {
        FeedChannel::Alerts => push_str(&mut url, "/ws/alerts"),
        FeedChannel::Traffic => push_str(&mut url, "/ws/traffic"),
    }
    url
}

/// What happens to a feed's socket.
#[derive(Clone, Copy, Debug, PartialEq, Eq, Structural)]
pub enum SocketEvent {
    Opened,
    Closed,
    Failed,
    CouldNotConnect,
}

/// Whether the link badge shows the alert feed as connected after `event`.
pub fn link_up_after(event: SocketEvent) -> (r: bool)
    ensures
        r == (event == SocketEvent::Opened),
{
    match event {
        SocketEvent::Opened => true,
        _ => false,
    }
}

/// How long the reconnect loop waits before its next attempt, in
/// milliseconds: 3000 while the page has no window, 5000 after a connection
/// attempt.
pub fn reconnect_delay_ms(window_available: bool) -> (r: u32)
    ensures
        r == if window_available {
            5000u32
        } else {
            3000u32
        },
{
    if window_available {
        5000
    } else {
        3000
    }
}

/// How many alerts the live incident list keeps.
pub const ALERT_FEED_CAP: usize = 100;

/// How many traffic events the live traffic list keeps.
pub const TRAFFIC_FEED_CAP: usize = 50;

/// A pushed alert enters the incident list at the front; the list keeps at
/// most its cap by dropping the oldest entry.
pub fn receive_alert(feed: &mut Vec<Alert>, alert: Alert)
    ensures
        final(feed)@ == prepended_bounded(old(feed)@, alert, ALERT_FEED_CAP as nat),
{
    prepend_bounded(feed, alert, ALERT_FEED_CAP);
}

/// The throughput counter after an event of `bytes` bytes: the byte count
/// taken as an unsigned 64-bit value and added.
pub open spec fn throughput_after(total: u64, bytes: i64) -> int {
    total + (bytes as u64)
}

/// A pushed traffic event adds its bytes to the throughput counter and
/// enters the traffic list at the front; the list keeps at most its cap.
pub fn receive_traffic(feed: &mut Vec<TrafficEvent>, throughput: &mut u64, event: TrafficEvent)
    requires
        throughput_after(*old(throughput), event.bytes_transferred) <= u64::MAX,
    ensures
        *final(throughput) == throughput_after(*old(throughput), event.bytes_transferred),
        final(feed)@ == prepended_bounded(old(feed)@, event, TRAFFIC_FEED_CAP as nat),
{
    let bytes: u64 = event.bytes_transferred as u64;
    *throughput = *throughput + bytes;
    prepend_bounded(feed, event, TRAFFIC_FEED_CAP);
}

} // verus!
