//! One refresh cycle: fleet aggregates, the record of each node, and the
//! writes to the store.
use vstd::prelude::*;
use crate::address::text_or_empty;
use crate::db::{save_node_history, save_snapshot, upsert_all, upsert_node, Store};
use crate::model::{copy_opt_text, FleetSnapshot, GeoData, HistoryRow, NodeHistoryRecord, NodeRecord, PodRaw};

verus! {

/// What was measured of one node before the cycle writes: its probed latency
/// and its geographic data, each absent when the probe or lookup gave nothing.
pub struct Enrichment {
    pub latency_ms: Option<i64>,
    pub geo: Option<GeoData>,
}

/// The writes of one successful cycle.
pub struct CyclePlan {
    pub snapshot: FleetSnapshot,
    pub records: Vec<NodeRecord>,
    pub samples: Vec<HistoryRow>,
}

/// A node counts as online when it reports a positive uptime.
pub open spec fn is_online(p: PodRaw) -> bool {
    match p.uptime {
        Some(u) => u > 0,
        None => false,
    }
}

/// The status label of a node.
pub open spec fn status_text(online: bool) -> Seq<char> {
    if online {
        "online"@
    } else {
        "offline"@
    }
}

/// How many of the nodes are online.
pub open spec fn online_count(pods: Seq<PodRaw>) -> nat
    decreases pods.len(),
{
    if pods.len() == 0 {
        0
    } else {
        online_count(pods.drop_last()) + if is_online(pods.last()) { 1nat } else { 0nat }
    }
}

/// The storage used by all nodes, a missing figure counting as zero.
pub open spec fn storage_sum(pods: Seq<PodRaw>) -> int
    decreases pods.len(),
{
    if pods.len() == 0 {
        0
    } else {
        storage_sum(pods.drop_last()) + match pods.last().storage_used {
            Some(s) => s as int,
            None => 0int,
        }
    }
}

/// `r` is the record written for node `p` with measurements `e`: every field
/// is replaced, and a field the node did not report is absent.
pub open spec fn record_for(r: NodeRecord, p: PodRaw, e: Enrichment) -> bool {
    &&& r.pubkey@ == text_or_empty(p.pubkey)
    &&& r.ip@ == text_or_empty(p.address)
    &&& r.version == p.version
    &&& r.status.is_some() && r.status.unwrap()@ == status_text(is_online(p))
    &&& r.last_seen == p.last_seen_timestamp
    &&& r.storage_used == p.storage_used
    &&& r.storage_committed == p.storage_committed
    &&& r.storage_usage_percent_bits == p.storage_usage_percent_bits
    &&& r.credits.is_none()
    &&& r.latency_ms == e.latency_ms
    &&& match e.geo {
        Some(g) => r.country == Some(g.country) && r.city == Some(g.city) && r.lat_bits == Some(g.lat_bits)
            && r.lon_bits == Some(g.lon_bits),
        None => r.country.is_none() && r.city.is_none() && r.lat_bits.is_none() && r.lon_bits.is_none(),
    }
}

/// `h` is the history sample taken of record `r` at `now`.
pub open spec fn sample_for(h: HistoryRow, r: NodeRecord, now: i64) -> bool {
    h == HistoryRow { pubkey: r.pubkey, sample: NodeHistoryRecord { timestamp: now, latency_ms: r.latency_ms, status: r.status } }
}

/// The snapshot of a fleet taken at `now`.
pub open spec fn snapshot_of(now: i64, pods: Seq<PodRaw>) -> FleetSnapshot {
    FleetSnapshot {
        timestamp: now,
        total_nodes: pods.len() as u64,
        online_nodes: online_count(pods) as u64,
        total_storage: storage_sum(pods) as i128,
    }
}

/// `plan` is what a cycle at `now` writes for `pods` measured as `enrich`:
/// one snapshot, and one record and one sample per node, in fetch order.
pub open spec fn plan_for(plan: CyclePlan, now: i64, pods: Seq<PodRaw>, enrich: Seq<Enrichment>) -> bool {
    &&& plan.snapshot == snapshot_of(now, pods)
    &&& plan.records@.len() == pods.len()
    &&& plan.samples@.len() == pods.len()
    &&& forall|i: int| 0 <= i < pods.len() ==> record_for(#[trigger] plan.records@[i], pods[i], enrich[i])
    &&& forall|i: int| 0 <= i < pods.len() ==> sample_for(#[trigger] plan.samples@[i], plan.records@[i], now)
}

/// `after` is `before` with the writes of `plan` applied.
pub open spec fn applied(before: Store, after: Store, plan: CyclePlan) -> bool {
    &&& after.wf()
    &&& after.table() == upsert_all(before.table(), plan.records@)
    &&& after.snapshots() == before.snapshots().push(plan.snapshot)
    &&& after.history() == before.history() + plan.samples@
}

/// The status label of a node by its reported uptime.
pub fn status_of(uptime: Option<i64>) -> (r: String)
    ensures
        r@ == status_text(match uptime { Some(u) => u > 0, None => false }),
{
    proof {
        reveal_strlit("online");
        reveal_strlit("offline");
    }
    let online = match uptime {
        Some(u) => u > 0,
        None => false,
    };
    if online {
        String::from_str("online")
    } else {
        String::from_str("offline")
    }
}

proof fn lemma_online_count_bound(pods: Seq<PodRaw>)
    ensures
        online_count(pods) <= pods.len(),
    decreases pods.len(),
{
    if pods.len() > 0 {
        lemma_online_count_bound(pods.drop_last());
    }
}

/// The fleet snapshot at `now`: node count, online count, and total storage.
pub fn fleet_snapshot(now: i64, pods: &Vec<PodRaw>) -> (r: FleetSnapshot)
    ensures
        r == snapshot_of(now, pods@),
{
    let mut online: u64 = 0;
    let mut storage: i128 = 0;
    let mut i: usize = 0;
    while i < pods.len()
        invariant
            0 <= i <= pods@.len(),
            online == online_count(pods@.subrange(0, i as int)),
            online <= i,
            storage == storage_sum(pods@.subrange(0, i as int)),
            -(i as int) * 0x8000_0000_0000_0000 <= storage <= (i as int) * 0x8000_0000_0000_0000,
        decreases pods@.len() - i,
    {
        let ghost prefix = pods@.subrange(0, i + 1);
        assert(prefix.drop_last() =~= pods@.subrange(0, i as int));
        assert(prefix.last() == pods@[i as int]);
        if match pods[i].uptime { Some(u) => u > 0, None => false } {
            online = online + 1;
        }
        match pods[i].storage_used {
            Some(s) => {
                storage = storage + s as i128;
            },
            None => {},
        }
        i = i + 1;
    }
    assert(pods@.subrange(0, pods@.len() as int) =~= pods@);
    FleetSnapshot { timestamp: now, total_nodes: pods.len() as u64, online_nodes: online, total_storage: storage }
}

/// The record written for `pod` with measurements `e`.
pub fn build_node_record(pod: &PodRaw, e: &Enrichment) -> (r: NodeRecord)
    ensures
        record_for(r, *pod, *e),
{
    let (country, city, lat_bits, lon_bits) = match &e.geo {
        Some(g) => (Some(g.country.clone()), Some(g.city.clone()), Some(g.lat_bits), Some(g.lon_bits)),
        None => (None, None, None, None),
    };
    NodeRecord {
        pubkey: match &pod.pubkey { Some(k) => k.clone(), None => String::new() },
        ip: match &pod.address { Some(a) => a.clone(), None => String::new() },
        version: copy_opt_text(&pod.version),
        status: Some(status_of(pod.uptime)),
        last_seen: pod.last_seen_timestamp,
        storage_used: pod.storage_used,
        storage_committed: pod.storage_committed,
        storage_usage_percent_bits: pod.storage_usage_percent_bits,
        credits: None,
        latency_ms: e.latency_ms,
        country,
        city,
        lat_bits,
        lon_bits,
    }
}

/// The writes of a cycle at `now` over the fetched `pods`, each measured by
/// the entry of `enrich` at the same index.
pub fn plan_cycle(now: i64, pods: &Vec<PodRaw>, enrich: &Vec<Enrichment>) -> (plan: CyclePlan)
    requires
        enrich@.len() == pods@.len(),
    ensures
        plan_for(plan, now, pods@, enrich@),
{
    let snapshot = fleet_snapshot(now, pods);
    let mut records: Vec<NodeRecord> = Vec::new();
    let mut samples: Vec<HistoryRow> = Vec::new();
    let mut i: usize = 0;
    while i < pods.len()
        invariant
            enrich@.len() == pods@.len(),
            0 <= i <= pods@.len(),
            records@.len() == i,
            samples@.len() == i,
            forall|j: int| 0 <= j < i ==> record_for(#[trigger] records@[j], pods@[j], enrich@[j]),
            forall|j: int| 0 <= j < i ==> sample_for(#[trigger] samples@[j], records@[j], now),
        decreases pods@.len() - i,
    {
        let record = build_node_record(&pods[i], &enrich[i]);
        let sample = HistoryRow {
            pubkey: record.pubkey.clone(),
            sample: NodeHistoryRecord { timestamp: now, latency_ms: record.latency_ms, status: copy_opt_text(&record.status) },
        };
        records.push(record);
        samples.push(sample);
        i = i + 1;
    }
    CyclePlan { snapshot, records, samples }
}

/// Writes a cycle's plan: the snapshot, then for each node its record and
/// its history sample. The writes are independent of one another and are not
/// meant to be atomic across the tables: a caller that shares the store with
/// readers may perform them one at a time (as `save_snapshot`, `upsert_node`
/// and `save_node_history`), and a reader may then see a snapshot before the
/// node rows of the same cycle.
pub fn apply_cycle(store: &mut Store, plan: &CyclePlan)
    requires
        old(store).wf(),
        plan.records@.len() == plan.samples@.len(),
    ensures
        applied(*old(store), *final(store), *plan),
{
    let s = plan.snapshot;
    save_snapshot(store, s.timestamp, s.total_nodes, s.online_nodes, s.total_storage);
    let mut i: usize = 0;
    while i < plan.records.len()
        invariant
            plan.records@.len() == plan.samples@.len(),
            0 <= i <= plan.records@.len(),
            store.wf(),
            store.table() == upsert_all(old(store).table(), plan.records@.subrange(0, i as int)),
            store.snapshots() == old(store).snapshots().push(plan.snapshot),
            store.history() == old(store).history() + plan.samples@.subrange(0, i as int),
        decreases plan.records@.len() - i,
    {
        assert(plan.records@.subrange(0, i + 1).drop_last() =~= plan.records@.subrange(0, i as int));
        upsert_node(store, plan.records[i].duplicate());
        let row = &plan.samples[i];
        save_node_history(store, row.pubkey.clone(), row.sample.timestamp, row.sample.latency_ms, copy_opt_text(&row.sample.status));
        assert(store.history().last() == plan.samples@[i as int]);
        assert(store.history() =~= old(store).history() + plan.samples@.subrange(0, i + 1)) by {
            let h = store.history();
            let want = old(store).history() + plan.samples@.subrange(0, i + 1);
            assert(h.drop_last() =~= old(store).history() + plan.samples@.subrange(0, i as int));
            assert(h.len() == want.len());
            assert forall|j: int| 0 <= j < h.len() implies h[j] == want[j] by {
                if j < h.len() - 1 {
                    assert(h[j] == h.drop_last()[j]);
                }
            }
        }
        i = i + 1;
    }
    assert(plan.records@.subrange(0, plan.records@.len() as int) =~= plan.records@);
    assert(plan.samples@.subrange(0, plan.samples@.len() as int) =~= plan.samples@);
}

/// One refresh cycle at `now` over what discovery returned. When the fetch
/// failed (`None`) nothing is written; otherwise the cycle's plan is written
/// and returned. The cycle's writes are not one transaction across the tables;
/// see `apply_cycle`.
pub fn run_cycle(store: &mut Store, now: i64, fetched: Option<Vec<PodRaw>>, enrich: &Vec<Enrichment>) -> (r: Option<CyclePlan>)
    requires
        old(store).wf(),
        fetched.is_some() ==> enrich@.len() == fetched.unwrap()@.len(),
    ensures
        final(store).wf(),
        fetched.is_none() ==> r.is_none() && *final(store) == *old(store),
        fetched.is_some() ==> r.is_some() && plan_for(r.unwrap(), now, fetched.unwrap()@, enrich@)
            && applied(*old(store), *final(store), r.unwrap()),
        fetched.is_some() ==> final(store).snapshots() == old(store).snapshots().push(snapshot_of(now, fetched.unwrap()@)),
{
    match fetched {
        None => None,
        Some(pods) => {
            let plan = plan_cycle(now, &pods, enrich);
            apply_cycle(store, &plan);
            Some(plan)
        },
    }
}

/// A successful cycle appends exactly one history sample per fetched node,
/// in fetch order, carrying that node's identity, latency and status, whether
/// or not its record changed.
pub proof fn law_one_sample_per_node(before: Store, after: Store, plan: CyclePlan, now: i64, pods: Seq<PodRaw>, enrich: Seq<Enrichment>)
    requires
        plan_for(plan, now, pods, enrich),
        applied(before, after, plan),
    ensures
        after.history().len() == before.history().len() + pods.len(),
        forall|i: int| 0 <= i < before.history().len() ==> after.history()[i] == before.history()[i],
        forall|i: int| 0 <= i < pods.len() ==> {
            let h = #[trigger] after.history()[before.history().len() + i];
            &&& h.pubkey@ == text_or_empty(pods[i].pubkey)
            &&& h.sample.timestamp == now
            &&& h.sample.latency_ms == enrich[i].latency_ms
            &&& h.sample.status.is_some() && h.sample.status.unwrap()@ == status_text(is_online(pods[i]))
        },
{
    assert forall|i: int| 0 <= i < pods.len() implies {
        let h = #[trigger] after.history()[before.history().len() + i];
        &&& h.pubkey@ == text_or_empty(pods[i].pubkey)
        &&& h.sample.timestamp == now
        &&& h.sample.latency_ms == enrich[i].latency_ms
        &&& h.sample.status.is_some() && h.sample.status.unwrap()@ == status_text(is_online(pods[i]))
    } by {
        assert(after.history()[before.history().len() + i] == plan.samples@[i]);
        assert(record_for(plan.records@[i], pods[i], enrich[i]));
        assert(sample_for(plan.samples@[i], plan.records@[i], now));
    }
}

/// Writing the same plan again leaves the node table as the first write left
/// it, while the history grows by one sample per node again.
pub proof fn law_rerun_keeps_table(s0: Store, s1: Store, s2: Store, plan: CyclePlan)
    requires
        applied(s0, s1, plan),
        applied(s1, s2, plan),
    ensures
        s2.table() == s1.table(),
        s2.history().len() == s1.history().len() + plan.samples@.len(),
        s2.snapshots().len() == s1.snapshots().len() + 1,
{
    crate::db::law_upsert_all_idempotent(s0.table(), plan.records@);
}

} // verus!
