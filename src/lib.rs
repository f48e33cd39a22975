//! Node-fleet monitoring aggregator: the data model, the refresh pipeline's
//! decisions, the persistence store's semantics and the read projections.

mod address;
mod api;
pub mod db;
mod directory;
mod geo;
mod model;
mod refresh;

pub use address::{
    contains_text, geo_target, host_of, host_spec, is_local_host, is_local_spec, occurs_in, probe_target, text_equals,
    text_or_empty,
};
pub use api::{
    fleet_history, get_node, get_node_history_handler, get_pods, node_matches, pod_view, view_of, PodView, PodsListing,
    QueryError, HISTORY_LIMIT, NODE_HISTORY_LIMIT,
};
pub use directory::{next_step, FetchStep, SeedFailover, SeedReply};
pub use geo::{
    after_lookup, geo_from_answer, geo_step_spec, law_second_resolve_is_cached, lookups_for_two_resolves, GeoCache,
    GeoStep,
};
pub use model::{copy_opt_text, FleetSnapshot, GeoData, HistoryRow, NodeHistoryRecord, NodeRecord, PodRaw};
pub use refresh::{
    applied, apply_cycle, build_node_record, fleet_snapshot, is_online, law_one_sample_per_node, law_rerun_keeps_table,
    online_count, plan_cycle, plan_for, record_for, run_cycle, sample_for, snapshot_of, status_of, status_text,
    storage_sum, CyclePlan, Enrichment,
};
