//! The console's data model: the records the API sends, held as plain
//! values (identifiers as 128-bit integers, addresses as their text,
//! instants as seconds and nanoseconds since the Unix epoch).

use vstd::prelude::*;

verus! {

/// How severe a detected threat is.
#[derive(Clone, Copy, Debug, PartialEq, Eq, Structural)]
pub enum AlertSeverity {
    Critical,
    High,
    Medium,
    Low,
}

/// Where an alert stands in its triage.
#[derive(Clone, Copy, Debug, PartialEq, Eq, Structural)]
pub enum AlertStatus {
    Open,
    Acknowledged,
    Resolved,
}

/// The role of a console user.
#[derive(Clone, Copy, Debug, PartialEq, Eq, Structural)]
pub enum UserRole {
    Admin,
    Analyst,
    Viewer,
}

/// The kind of a detection rule.
#[derive(Clone, Copy, Debug, PartialEq, Eq, Structural)]
pub enum RuleType {
    Threshold,
    Pattern,
    Anomaly,
}

/// The transport of a notification channel.
#[derive(Clone, Copy, Debug, PartialEq, Eq, Structural)]
pub enum ChannelType {
    Email,
    Webhook,
    Telegram,
    Slack,
}

/// An instant, as whole seconds since the Unix epoch and the nanoseconds
/// past that second.
#[derive(Clone, Copy, Debug, PartialEq, Eq, Structural)]
pub struct Timestamp {
    pub secs: i64,
    pub nanos: u32,
}

/// A detected security incident.
#[derive(Clone, Debug, PartialEq, Eq)]
pub struct Alert {
    pub id: u128,
    pub severity: AlertSeverity,
    pub status: AlertStatus,
    pub src_ip: String,
    pub dst_ip: String,
    pub title: String,
    pub description: String,
    pub detected_at: Timestamp,
}

/// One captured packet flow.
#[derive(Clone, Debug, PartialEq, Eq)]
pub struct TrafficEvent {
    pub id: u128,
    pub time: Timestamp,
    pub src_ip: String,
    pub dst_ip: String,
    pub src_port: i32,
    pub dst_port: i32,
    pub protocol: String,
    pub bytes_transferred: i64,
    pub flags: String,
}

/// A host seen on the network.
#[derive(Clone, Debug, PartialEq, Eq)]
pub struct Device {
    pub id: u128,
    pub ip_address: String,
    pub mac_address: Option<String>,
    pub hostname: Option<String>,
    pub device_type: String,
    pub is_trusted: bool,
    pub last_seen: Timestamp,
}

/// An address or network on the firewall blocklist.
#[derive(Clone, Debug, PartialEq, Eq)]
pub struct BlockedIp {
    pub id: u128,
    pub ip_address: String,
    pub reason: String,
    pub blocked_at: Timestamp,
}

/// A destination for pushed alert notifications; `config_json` is the
/// channel's configuration as compact JSON text.
#[derive(Clone, Debug, PartialEq, Eq)]
pub struct NotificationChannel {
    pub id: u128,
    pub name: String,
    pub channel_type: ChannelType,
    pub config_json: String,
}

/// The public profile of a user.
#[derive(Clone, Debug, PartialEq, Eq)]
pub struct UserPublicDto {
    pub id: u128,
    pub username: String,
    pub email: String,
    pub role: UserRole,
}

/// A granted session: the bearer token and the user it belongs to.
#[derive(Clone, Debug, PartialEq, Eq)]
pub struct AuthResponseDto {
    pub token: String,
    pub user: UserPublicDto,
}

/// One of the busiest traffic sources.
#[derive(Clone, Debug, PartialEq, Eq)]
pub struct TopSource {
    pub key: String,
    pub count: i64,
    pub bytes: i64,
}

/// The dashboard's traffic summary.
#[derive(Clone, Debug, PartialEq, Eq)]
pub struct TrafficSummaryDto {
    pub total_packets: i64,
    pub top_src_ips: Vec<TopSource>,
}

/// The envelope every API reply comes in.
#[derive(Clone, Debug)]
pub struct ApiResponse<T> {
    pub success: bool,
    pub data: Option<T>,
    pub error: Option<String>,
}

/// Credentials for signing in.
#[derive(Clone, Debug)]
pub struct LoginDto {
    pub username: String,
    pub password: String,
}

/// A new account to register.
#[derive(Clone, Debug)]
pub struct CreateUserDto {
    pub username: String,
    pub email: String,
    pub password: String,
    pub role: Option<UserRole>,
}

/// A request to block an address.
#[derive(Clone, Debug)]
pub struct CreateBlockedIpDto {
    pub ip_address: String,
    pub reason: String,
    pub duration_seconds: Option<i64>,
}

/// A request to create a notification channel whose configuration is the
/// target `url` and the signing `secret`.
#[derive(Clone, Debug)]
pub struct CreateNotificationChannelDto {
    pub name: String,
    pub channel_type: ChannelType,
    pub url: String,
    pub secret: String,
    pub min_severity: AlertSeverity,
    pub is_enabled: Option<bool>,
}

/// The condition attached to a rule created from the console.
#[derive(Clone, Debug)]
pub struct RuleCondition {
    pub metric: String,
    pub operator: String,
}

/// Records that carry a 128-bit identifier.
pub trait Keyed {
    spec fn key_of(&self) -> u128;

    fn key(&self) -> (k: u128)
        ensures
            k == self.key_of(),
    ;
}

impl Keyed for Alert {
    open spec fn key_of(&self) -> u128 {
        self.id
    }

    fn key(&self) -> (k: u128) {
        self.id
    }
}

impl Keyed for TrafficEvent {
    open spec fn key_of(&self) -> u128 {
        self.id
    }

    fn key(&self) -> (k: u128) {
        self.id
    }
}

impl Keyed for Device {
    open spec fn key_of(&self) -> u128 {
        self.id
    }

    fn key(&self) -> (k: u128) {
        self.id
    }
}

impl Keyed for BlockedIp {
    open spec fn key_of(&self) -> u128 {
        self.id
    }

    fn key(&self) -> (k: u128) {
        self.id
    }
}

impl Keyed for NotificationChannel {
    open spec fn key_of(&self) -> u128 {
        self.id
    }

    fn key(&self) -> (k: u128) {
        self.id
    }
}

} // verus!
