use vstd::prelude::*;

verus! {

/// Geographic metadata of an IP. Coordinates are carried as the IEEE-754 bit
/// patterns of the degrees, so that they pass through unchanged.
#[derive(Debug, Clone, PartialEq, Eq)]
pub struct GeoData {
    pub lat_bits: u64,
    pub lon_bits: u64,
    pub country: String,
    pub city: String,
}

/// A node descriptor as a seed reports it; every field may be missing.
/// `storage_usage_percent_bits` is the bit pattern of the reported percentage.
#[derive(Debug, Clone, PartialEq)]
pub struct PodRaw {
    pub address: Option<String>,
    pub is_public: Option<bool>,
    pub last_seen_timestamp: Option<i64>,
    pub pubkey: Option<String>,
    pub rpc_port: Option<u16>,
    pub storage_committed: Option<i64>,
    pub storage_usage_percent_bits: Option<u64>,
    pub storage_used: Option<i64>,
    pub uptime: Option<i64>,
    pub version: Option<String>,
}

/// The current state of one node, keyed by `pubkey`.
#[derive(Debug, Clone, PartialEq)]
pub struct NodeRecord {
    pub pubkey: String,
    pub ip: String,
    pub version: Option<String>,
    pub status: Option<String>,
    pub last_seen: Option<i64>,
    pub storage_used: Option<i64>,
    pub storage_committed: Option<i64>,
    pub storage_usage_percent_bits: Option<u64>,
    pub credits: Option<i64>,
    pub latency_ms: Option<i64>,
    pub country: Option<String>,
    pub city: Option<String>,
    pub lat_bits: Option<u64>,
    pub lon_bits: Option<u64>,
}

/// One observation of a node at a point in time.
#[derive(Debug, Clone, PartialEq)]
pub struct NodeHistoryRecord {
    pub timestamp: i64,
    pub latency_ms: Option<i64>,
    pub status: Option<String>,
}

/// A history sample together with the identity of the node it describes.
#[derive(Debug, Clone, PartialEq)]
pub struct HistoryRow {
    pub pubkey: String,
    pub sample: NodeHistoryRecord,
}

/// Fleet-wide aggregate at one refresh.
#[derive(Debug, Clone, Copy, PartialEq, Eq)]
pub struct FleetSnapshot {
    pub timestamp: i64,
    pub total_nodes: u64,
    pub online_nodes: u64,
    pub total_storage: i128,
}

/// A copy of an optional string, equal to it.
pub fn copy_opt_text(o: &Option<String>) -> (r: Option<String>)
    ensures
        r == *o,
{
    match o {
        Some(s) => Some(s.clone()),
        None => None,
    }
}

impl GeoData {
    /// A copy equal to `self`.
    pub fn duplicate(&self) -> (r: GeoData)
        ensures
            r == *self,
    {
        GeoData {
            lat_bits: self.lat_bits,
            lon_bits: self.lon_bits,
            country: self.country.clone(),
            city: self.city.clone(),
        }
    }
}

impl NodeHistoryRecord {
    /// A copy equal to `self`.
    pub fn duplicate(&self) -> (r: NodeHistoryRecord)
        ensures
            r == *self,
    {
        NodeHistoryRecord {
            timestamp: self.timestamp,
            latency_ms: self.latency_ms,
            status: copy_opt_text(&self.status),
        }
    }
}

impl NodeRecord {
    /// A copy equal to `self`.
    pub fn duplicate(&self) -> (r: NodeRecord)
        ensures
            r == *self,
    {
        NodeRecord {
            pubkey: self.pubkey.clone(),
            ip: self.ip.clone(),
            version: copy_opt_text(&self.version),
            status: copy_opt_text(&self.status),
            last_seen: self.last_seen,
            storage_used: self.storage_used,
            storage_committed: self.storage_committed,
            storage_usage_percent_bits: self.storage_usage_percent_bits,
            credits: self.credits,
            latency_ms: self.latency_ms,
            country: copy_opt_text(&self.country),
            city: copy_opt_text(&self.city),
            lat_bits: self.lat_bits,
            lon_bits: self.lon_bits,
        }
    }
}

} // verus!
