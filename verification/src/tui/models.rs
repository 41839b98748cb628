//! Plain data that the pages work on: the mihomo controller's groups,
//! proxies, connections and rules, and the helper's profile, backup,
//! settings and audit records. Only the fields the logic reads or the
//! renderer shows are kept.

use vstd::prelude::*;

verus! {

/// One delay measurement of a proxy; a delay of 0 means a timeout.
#[derive(Debug, Clone)]
pub struct DelayHistory {
    pub time: String,
    pub delay: u16,
}

/// Liveness and delay history of a proxy.
#[derive(Debug, Clone)]
pub struct Extra {
    pub alive: bool,
    pub history: Vec<DelayHistory>,
}

/// Kind of a proxy or proxy group.
#[derive(Debug, Clone, Copy, PartialEq, Eq, Structural)]
pub enum ProxyType {
    Direct,
    Reject,
    RejectDrop,
    Compatible,
    Pass,
    Dns,
    Shadowsocks,
    ShadowsocksR,
    Snell,
    Socks5,
    Http,
    Vmess,
    Vless,
    Trojan,
    Hysteria,
    Hysteria2,
    WireGuard,
    Tuic,
    Ssh,
    Mieru,
    AnyTLS,
    Relay,
    Selector,
    Fallback,
    URLTest,
    LoadBalance,
}

/// A proxy or proxy group as the controller reports it. A group has
/// `all` (its member names) and `now` (the chosen member).
#[derive(Debug, Clone)]
pub struct Proxy {
    pub all: Option<Vec<String>>,
    pub expected_status: Option<String>,
    /// The member a group is pinned to.
    pub fixed: Option<String>,
    pub hidden: Option<bool>,
    pub icon: Option<String>,
    pub now: Option<String>,
    /// The URL a group's delay tests fetch.
    pub test_url: Option<String>,
    pub id: Option<String>,
    pub provider_name: Option<String>,
    pub name: String,
    pub alive: bool,
    pub history: Vec<DelayHistory>,
    /// Per-member liveness and delay history, keyed by member name.
    pub extra: Vec<(String, Extra)>,
    pub proxy_type: ProxyType,
    pub udp: bool,
    pub uot: bool,
    pub xudp: bool,
    pub tfo: bool,
    pub mptcp: bool,
    pub smux: bool,
    /// The network interface the proxy dials through.
    pub interface: String,
    pub dialer_proxy: String,
    pub routing_mark: i8,
}

/// Every proxy and group the controller knows.
#[derive(Debug, Clone)]
pub struct Groups {
    pub proxies: Vec<Proxy>,
}

/// Where a connection comes from and goes to.
#[derive(Debug, Clone)]
pub struct ConnectionMetadata {
    pub network: String,
    pub conn_type: String,
    pub source_ip: String,
    pub destination_ip: String,
    pub source_geo_ip: Option<Vec<String>>,
    pub destination_geo_ip: Option<Vec<String>>,
    pub source_ip_asn: String,
    pub destination_ip_asn: String,
    pub source_port: String,
    pub destination_port: String,
    pub inbound_ip: String,
    pub inbound_port: String,
    pub inbound_name: String,
    pub host: String,
    pub process: String,
    pub sniff_host: String,
    pub remote_destination: String,
}

/// One active connection.
#[derive(Debug, Clone)]
pub struct Connection {
    pub id: String,
    pub upload: u64,
    pub download: u64,
    pub start: String,
    pub chains: Vec<String>,
    pub rule: String,
    pub rule_payload: String,
    pub metadata: ConnectionMetadata,
}

/// A snapshot of the active connections and the totals.
#[derive(Debug, Clone)]
pub struct Connections {
    pub download_total: u64,
    pub upload_total: u64,
    pub memory: u32,
    pub connections: Option<Vec<Connection>>,
}

/// One traffic sample (bytes per second).
#[derive(Debug, Clone, Copy, PartialEq, Eq, Structural)]
pub struct Traffic {
    pub up: u64,
    pub down: u64,
}

/// Extra state of a rule.
#[derive(Debug, Clone, Copy, PartialEq, Eq, Structural)]
pub struct RuleExtra {
    pub disabled: bool,
    pub hit_count: u64,
    pub miss_count: u64,
}

/// One routing rule.
#[derive(Debug, Clone)]
pub struct Rule {
    pub index: usize,
    pub rule_type: String,
    pub payload: String,
    pub proxy: String,
    pub size: i64,
    pub extra: Option<RuleExtra>,
}

/// What a rule set matches on.
#[derive(Debug, Clone, Copy, PartialEq, Eq, Structural)]
pub enum RuleBehavior {
    Domain,
    IPCIDR,
    Classical,
}

/// How a rule set is written.
#[derive(Debug, Clone, Copy, PartialEq, Eq, Structural)]
pub enum RuleFormat {
    Yaml,
    Text,
    Mrs,
}

/// Kind of a provider.
#[derive(Debug, Clone, Copy, PartialEq, Eq, Structural)]
pub enum ProviderType {
    Proxy,
    Rule,
}

/// Where a provider's content comes from.
#[derive(Debug, Clone, Copy, PartialEq, Eq, Structural)]
pub enum VehicleType {
    HTTP,
    File,
    Inline,
    Compatible,
}

/// A rule set (rule provider).
#[derive(Debug, Clone)]
pub struct RuleProvider {
    pub behavior: RuleBehavior,
    pub format: RuleFormat,
    pub name: String,
    pub rule_count: u32,
    pub provider_type: ProviderType,
    pub updated_at: String,
    pub vehicle_type: VehicleType,
}

/// A kept version of a profile's configuration.
#[derive(Debug, Clone, Copy, PartialEq, Eq, Structural)]
pub struct ProfileVersion {
    pub version: u32,
    pub updated_at: Option<i64>,
}

/// A subscription profile kept by the helper.
#[derive(Debug, Clone)]
pub struct ProfileItem {
    pub uid: String,
    pub name: String,
    pub url: String,
    pub updated_at: Option<i64>,
    pub interval: u64,
}

/// A backup kept by the helper.
#[derive(Debug, Clone)]
pub struct BackupItem {
    pub name: String,
    pub created_at: i64,
    pub size: u64,
}

/// The helper's user settings.
#[derive(Debug, Clone)]
pub struct Settings {
    pub language: String,
    pub theme: String,
    pub test_url: String,
    pub mixed_port: u16,
    pub auto_update_interval_hours: u64,
    pub tun_enabled: bool,
    pub tun_stack: String,
    pub tun_dns_mode: String,
    pub dns_hijack: Vec<String>,
    pub route_exclude_address: Vec<String>,
    pub exclude_uid: Vec<u32>,
    pub exclude_interface: Vec<String>,
    pub exclude_dst_port: Vec<u16>,
    pub strict_route: bool,
    pub auto_redirect: bool,
}

/// The helper's system configuration.
#[derive(Debug, Clone)]
pub struct HelperConfig {
    pub log_level: String,
    pub app_log_max_bytes: u64,
    pub app_log_keep: u32,
    pub audit_keep: u32,
    pub audit_dual_write: bool,
}

/// One audit record.
#[derive(Debug, Clone)]
pub struct AuditRecord {
    pub op: String,
    pub op_id: String,
    pub ts: i64,
    pub result: String,
    pub err: Option<String>,
}

} // verus!
