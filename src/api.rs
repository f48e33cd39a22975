//! Read projections over the store, as the query endpoints serve them.
use vstd::prelude::*;
use crate::address::{contains_text, occurs_in, text_or_empty, text_equals};
use crate::db::{get_history, get_node_history, latest, samples_of, Store};
use crate::model::{copy_opt_text, FleetSnapshot, GeoData, NodeHistoryRecord, NodeRecord};

verus! {

/// How many fleet snapshots the history endpoint returns at most.
pub const HISTORY_LIMIT: usize = 1440;

/// How many samples the node history endpoint returns at most.
pub const NODE_HISTORY_LIMIT: usize = 100;

/// A node as the query endpoints present it. Uptime and public reachability
/// are not kept in the store and are always absent here.
pub struct PodView {
    pub pubkey: Option<String>,
    pub address: Option<String>,
    pub uptime: Option<i64>,
    pub storage_used: Option<i64>,
    pub storage_committed: Option<i64>,
    pub storage_usage_percent_bits: Option<u64>,
    pub version: Option<String>,
    pub last_seen_timestamp: Option<i64>,
    pub is_public: Option<bool>,
    pub geo: Option<GeoData>,
    pub latency_ms: Option<i64>,
}

/// The listing of all current nodes.
pub struct PodsListing {
    pub total_count: usize,
    pub pods: Vec<PodView>,
}

/// Why a query returned no data.
#[derive(Debug, Clone, Copy, PartialEq, Eq)]
pub enum QueryError {
    NodeNotFound,
}

impl QueryError {
    /// The message served for this error.
    pub fn message(&self) -> (r: String)
        ensures
            r@ == "Node not found"@,
    {
        proof {
            reveal_strlit("Node not found");
        }
        match self {
            QueryError::NodeNotFound => String::from_str("Node not found"),
        }
    }
}

/// `v` presents record `n`: the geographic object is present exactly when a
/// latitude is stored, with missing parts as zero or empty.
pub open spec fn view_of(v: PodView, n: NodeRecord) -> bool {
    &&& v.pubkey == Some(n.pubkey)
    &&& v.address == Some(n.ip)
    &&& v.uptime.is_none()
    &&& v.storage_used == n.storage_used
    &&& v.storage_committed == n.storage_committed
    &&& v.storage_usage_percent_bits == n.storage_usage_percent_bits
    &&& v.version == n.version
    &&& v.last_seen_timestamp == n.last_seen
    &&& v.is_public.is_none()
    &&& v.latency_ms == n.latency_ms
    &&& match n.lat_bits {
        Some(lat) => v.geo.is_some() && v.geo.unwrap().lat_bits == lat
            && v.geo.unwrap().lon_bits == (match n.lon_bits { Some(b) => b, None => 0 })
            && v.geo.unwrap().country@ == text_or_empty(n.country)
            && v.geo.unwrap().city@ == text_or_empty(n.city),
        None => v.geo.is_none(),
    }
}

/// A node answers to `id` by identity or by an address containing `id`.
pub open spec fn node_matches(n: NodeRecord, id: Seq<char>) -> bool {
    n.pubkey@ == id || occurs_in(id, n.ip@)
}

/// The presentation of one record.
pub fn pod_view(n: &NodeRecord) -> (v: PodView)
    ensures
        view_of(v, *n),
{
    let geo = match n.lat_bits {
        Some(lat) => Some(GeoData {
            lat_bits: lat,
            lon_bits: match n.lon_bits { Some(b) => b, None => 0 },
            country: match &n.country { Some(c) => c.clone(), None => String::new() },
            city: match &n.city { Some(c) => c.clone(), None => String::new() },
        }),
        None => None,
    };
    PodView {
        pubkey: Some(n.pubkey.clone()),
        address: Some(n.ip.clone()),
        uptime: None,
        storage_used: n.storage_used,
        storage_committed: n.storage_committed,
        storage_usage_percent_bits: n.storage_usage_percent_bits,
        version: copy_opt_text(&n.version),
        last_seen_timestamp: n.last_seen,
        is_public: None,
        geo,
        latency_ms: n.latency_ms,
    }
}

/// All current nodes, presented, with their count.
pub fn get_pods(store: &Store) -> (r: PodsListing)
    ensures
        r.total_count == store.rows().len(),
        r.pods@.len() == store.rows().len(),
        forall|i: int| 0 <= i < store.rows().len() ==> view_of(#[trigger] r.pods@[i], store.rows()[i]),
{
    let nodes = crate::db::get_all_nodes(store);
    let mut pods: Vec<PodView> = Vec::new();
    let mut i: usize = 0;
    while i < nodes.len()
        invariant
            nodes@ == store.rows(),
            0 <= i <= nodes@.len(),
            pods@.len() == i,
            forall|j: int| 0 <= j < i ==> view_of(#[trigger] pods@[j], nodes@[j]),
        decreases nodes@.len() - i,
    {
        pods.push(pod_view(&nodes[i]));
        i = i + 1;
    }
    PodsListing { total_count: nodes.len(), pods }
}

/// The first node, in table order, that answers to `id`.
pub fn get_node(store: &Store, id: &str) -> (r: Result<PodView, QueryError>)
    ensures
        r.is_err() <==> forall|i: int| 0 <= i < store.rows().len() ==> !node_matches(#[trigger] store.rows()[i], id@),
        r.is_err() ==> r == Err::<PodView, QueryError>(QueryError::NodeNotFound),
        r.is_ok() ==> exists|i: int|
            0 <= i < store.rows().len() && node_matches(#[trigger] store.rows()[i], id@)
                && (forall|j: int| 0 <= j < i ==> !node_matches(#[trigger] store.rows()[j], id@))
                && view_of(r.unwrap(), store.rows()[i]),
{
    let nodes = crate::db::get_all_nodes(store);
    let mut i: usize = 0;
    while i < nodes.len()
        invariant
            nodes@ == store.rows(),
            0 <= i <= nodes@.len(),
            forall|j: int| 0 <= j < i ==> !node_matches(#[trigger] nodes@[j], id@),
        decreases nodes@.len() - i,
    {
        let n = &nodes[i];
        if text_equals(n.pubkey.as_str(), id) || contains_text(n.ip.as_str(), id) {
            let v = pod_view(n);
            assert(node_matches(store.rows()[i as int], id@));
            return Ok(v);
        }
        i = i + 1;
    }
    Err(QueryError::NodeNotFound)
}

/// The fleet history served: the newest snapshots first, at most
/// `HISTORY_LIMIT` of them.
pub fn fleet_history(store: &Store) -> (r: Vec<FleetSnapshot>)
    ensures
        r@ == latest(store.snapshots(), HISTORY_LIMIT as nat),
{
    get_history(store, HISTORY_LIMIT)
}

/// The history served for node `id`: its newest samples first, at most
/// `NODE_HISTORY_LIMIT` of them.
pub fn get_node_history_handler(store: &Store, id: &str) -> (r: Vec<NodeHistoryRecord>)
    ensures
        r@ == latest(samples_of(store.history(), id@), NODE_HISTORY_LIMIT as nat),
{
    get_node_history(store, id, NODE_HISTORY_LIMIT)
}

} // verus!
