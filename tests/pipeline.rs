use pod_monitor::db::{get_all_nodes, get_history, get_node_history, save_node_history, save_snapshot, upsert_node, Store};
use pod_monitor::{
    build_node_record, contains_text, fleet_history, fleet_snapshot, geo_from_answer, geo_target, get_node,
    get_node_history_handler, get_pods, host_of, is_local_host, plan_cycle, probe_target, run_cycle, status_of,
    text_equals, Enrichment, FetchStep, GeoCache, GeoData, GeoStep, NodeRecord, PodRaw, QueryError, SeedFailover,
    SeedReply,
};

fn pod(pubkey: &str, address: &str, uptime: Option<i64>, storage_used: Option<i64>) -> PodRaw {
    PodRaw {
        address: Some(address.to_string()),
        is_public: Some(true),
        last_seen_timestamp: Some(1_700_000_000),
        pubkey: Some(pubkey.to_string()),
        rpc_port: Some(6000),
        storage_committed: Some(1000),
        storage_usage_percent_bits: Some(12.5f64.to_bits()),
        storage_used,
        uptime,
        version: Some("0.7.1".to_string()),
    }
}

fn no_enrichment(n: usize) -> Vec<Enrichment> {
    (0..n).map(|_| Enrichment { latency_ms: None, geo: None }).collect()
}

fn geo(country: &str, city: &str) -> GeoData {
    GeoData { lat_bits: 48.1f64.to_bits(), lon_bits: 11.5f64.to_bits(), country: country.to_string(), city: city.to_string() }
}

fn record(pubkey: &str, ip: &str) -> NodeRecord {
    build_node_record(&pod(pubkey, ip, Some(5), Some(10)), &Enrichment { latency_ms: Some(7), geo: None })
}

#[test]
fn host_strips_port() {
    assert_eq!(host_of("10.0.0.5:9001"), "10.0.0.5");
    assert_eq!(host_of("1.2.3.4"), "1.2.3.4");
    assert_eq!(host_of(""), "");
    assert_eq!(host_of(":9001"), "");
}

#[test]
fn probe_uses_full_address_and_geo_uses_bare_ip() {
    let a = Some("10.0.0.5:9001".to_string());
    assert_eq!(probe_target(&a), Some("10.0.0.5:9001".to_string()));
    assert_eq!(geo_target(&a), Some("10.0.0.5".to_string()));
}

#[test]
fn empty_or_local_addresses_are_not_looked_up() {
    assert_eq!(probe_target(&None), None);
    assert_eq!(geo_target(&None), None);
    assert_eq!(probe_target(&Some(":9001".to_string())), None);
    let local = Some("127.0.0.1:9001".to_string());
    assert_eq!(probe_target(&local), Some("127.0.0.1:9001".to_string()));
    assert_eq!(geo_target(&local), None);
    assert!(is_local_host("0.0.0.0"));
    assert!(!is_local_host("10.0.0.5"));
}

#[test]
fn every_loopback_host_is_local() {
    assert!(is_local_host("127.0.0.1"));
    assert!(is_local_host("127.0.0.2"));
    assert!(is_local_host("127.255.1.9"));
    assert!(is_local_host("localhost"));
    assert!(is_local_host("[::1]"));
    assert!(!is_local_host("128.0.0.1"));
    assert!(!is_local_host("12.7.0.1"));
    assert!(!is_local_host("127"));
    assert_eq!(geo_target(&Some("127.0.0.2:9001".to_string())), None);
    assert_eq!(geo_target(&Some("0.0.0.0:9001".to_string())), None);
    assert_eq!(geo_target(&Some("[::1]:9001".to_string())), None);
    assert_eq!(probe_target(&Some("[::1]:9001".to_string())), Some("[::1]:9001".to_string()));
}

#[test]
fn bracketed_host_keeps_its_colons() {
    assert_eq!(host_of("[::1]:9001"), "[::1]");
    assert_eq!(host_of("[2001:db8::7]:6000"), "[2001:db8::7]");
    assert_eq!(host_of("[2001:db8::7]"), "[2001:db8::7]");
    assert_eq!(host_of("[::1"), "[::1");
    assert_eq!(geo_target(&Some("[2001:db8::7]:6000".to_string())), Some("[2001:db8::7]".to_string()));
}

#[test]
fn text_helpers() {
    assert!(text_equals("abc", "abc"));
    assert!(!text_equals("abc", "abd"));
    assert!(!text_equals("abc", "ab"));
    assert!(contains_text("10.0.0.5:9001", "0.5:90"));
    assert!(contains_text("abc", ""));
    assert!(!contains_text("abc", "abcd"));
    assert!(!contains_text("10.0.0.5", "xyz"));
}

#[test]
fn status_follows_uptime() {
    assert_eq!(status_of(Some(1)), "online");
    assert_eq!(status_of(Some(0)), "offline");
    assert_eq!(status_of(Some(-3)), "offline");
    assert_eq!(status_of(None), "offline");
}

#[test]
fn snapshot_counts_online_and_sums_storage() {
    let pods = vec![
        pod("a", "1.1.1.1:9001", Some(10), Some(100)),
        pod("b", "1.1.1.2:9001", Some(0), Some(50)),
        pod("c", "1.1.1.3:9001", None, None),
        pod("d", "1.1.1.4:9001", Some(3), Some(-20)),
    ];
    let s = fleet_snapshot(42, &pods);
    assert_eq!(s.timestamp, 42);
    assert_eq!(s.total_nodes, 4);
    assert_eq!(s.online_nodes, 2);
    assert_eq!(s.total_storage, 130);
}

#[test]
fn snapshot_sum_does_not_overflow() {
    let pods = vec![pod("a", "x:1", Some(1), Some(i64::MAX)), pod("b", "y:1", Some(1), Some(i64::MAX))];
    let s = fleet_snapshot(0, &pods);
    assert_eq!(s.total_storage, 2 * (i64::MAX as i128));
}

#[test]
fn record_takes_every_field_from_the_fetch() {
    let p = pod("key1", "10.0.0.5:9001", Some(9), Some(77));
    let r = build_node_record(&p, &Enrichment { latency_ms: Some(12), geo: Some(geo("Germany", "Munich")) });
    assert_eq!(r.pubkey, "key1");
    assert_eq!(r.ip, "10.0.0.5:9001");
    assert_eq!(r.version, Some("0.7.1".to_string()));
    assert_eq!(r.status, Some("online".to_string()));
    assert_eq!(r.storage_used, Some(77));
    assert_eq!(r.storage_usage_percent_bits, Some(12.5f64.to_bits()));
    assert_eq!(r.credits, None);
    assert_eq!(r.latency_ms, Some(12));
    assert_eq!(r.country, Some("Germany".to_string()));
    assert_eq!(r.city, Some("Munich".to_string()));
    assert_eq!(r.lat_bits, Some(48.1f64.to_bits()));
    let bare = PodRaw { pubkey: None, address: None, uptime: None, version: None, ..p };
    let r2 = build_node_record(&bare, &Enrichment { latency_ms: None, geo: None });
    assert_eq!(r2.pubkey, "");
    assert_eq!(r2.ip, "");
    assert_eq!(r2.status, Some("offline".to_string()));
    assert_eq!(r2.country, None);
    assert_eq!(r2.lon_bits, None);
}

#[test]
fn upsert_replaces_the_whole_row() {
    let mut store = Store::new();
    upsert_node(&mut store, record("k", "1.1.1.1:9001"));
    let mut second = record("k", "2.2.2.2:9001");
    second.version = None;
    upsert_node(&mut store, second);
    upsert_node(&mut store, record("m", "3.3.3.3:9001"));
    let nodes = get_all_nodes(&store);
    assert_eq!(nodes.len(), 2);
    assert_eq!(nodes[0].pubkey, "k");
    assert_eq!(nodes[0].ip, "2.2.2.2:9001");
    assert_eq!(nodes[0].version, None);
    assert_eq!(nodes[1].pubkey, "m");
}

#[test]
fn history_reads_newest_first_within_limit() {
    let mut store = Store::new();
    for t in 1..=5 {
        save_snapshot(&mut store, t, t as u64, 0, 0);
    }
    let h = get_history(&store, 3);
    assert_eq!(h.iter().map(|s| s.timestamp).collect::<Vec<_>>(), vec![5, 4, 3]);
    assert_eq!(get_history(&store, 10).len(), 5);
    assert_eq!(get_history(&store, 0).len(), 0);
    assert_eq!(fleet_history(&store).len(), 5);
}

#[test]
fn node_history_filters_by_identity() {
    let mut store = Store::new();
    save_node_history(&mut store, "a".to_string(), 1, Some(10), Some("online".to_string()));
    save_node_history(&mut store, "b".to_string(), 2, None, Some("offline".to_string()));
    save_node_history(&mut store, "a".to_string(), 3, Some(11), Some("online".to_string()));
    save_node_history(&mut store, "a".to_string(), 4, None, Some("offline".to_string()));
    let h = get_node_history(&store, "a", 2);
    assert_eq!(h.len(), 2);
    assert_eq!(h[0].timestamp, 4);
    assert_eq!(h[0].latency_ms, None);
    assert_eq!(h[1].timestamp, 3);
    assert_eq!(h[1].latency_ms, Some(11));
    assert_eq!(get_node_history(&store, "b", 100).len(), 1);
    assert_eq!(get_node_history_handler(&store, "a").len(), 3);
    assert_eq!(get_node_history(&store, "c", 100).len(), 0);
}

#[test]
fn failed_fetch_leaves_store_unchanged() {
    let mut store = Store::new();
    let pods = vec![pod("a", "1.1.1.1:9001", Some(1), Some(5))];
    run_cycle(&mut store, 100, Some(pods), &no_enrichment(1));
    let before = get_all_nodes(&store);
    let plan = run_cycle(&mut store, 200, None, &Vec::new());
    assert!(plan.is_none());
    assert_eq!(get_all_nodes(&store), before);
    assert_eq!(get_history(&store, 100).len(), 1);
    assert_eq!(get_node_history(&store, "a", 100).len(), 1);
}

#[test]
fn successful_cycle_appends_one_snapshot() {
    let mut store = Store::new();
    let pods = vec![
        pod("a", "1.1.1.1:9001", Some(1), Some(5)),
        pod("b", "1.1.1.2:9001", Some(0), Some(7)),
        pod("c", "1.1.1.3:9001", Some(2), None),
    ];
    run_cycle(&mut store, 100, Some(pods), &no_enrichment(3));
    let h = get_history(&store, 100);
    assert_eq!(h.len(), 1);
    assert_eq!(h[0].timestamp, 100);
    assert_eq!(h[0].total_nodes, 3);
    assert_eq!(h[0].online_nodes, 2);
    assert_eq!(h[0].total_storage, 12);
}

#[test]
fn each_node_gets_one_history_row() {
    let mut store = Store::new();
    let pods = vec![pod("a", "1.1.1.1:9001", Some(1), Some(5)), pod("b", "1.1.1.2:9001", None, None)];
    let enrich = vec![Enrichment { latency_ms: Some(30), geo: None }, Enrichment { latency_ms: None, geo: None }];
    run_cycle(&mut store, 100, Some(pods), &enrich);
    let a = get_node_history(&store, "a", 100);
    let b = get_node_history(&store, "b", 100);
    assert_eq!(a.len(), 1);
    assert_eq!(a[0].latency_ms, Some(30));
    assert_eq!(a[0].status, Some("online".to_string()));
    assert_eq!(b.len(), 1);
    assert_eq!(b[0].status, Some("offline".to_string()));
}

#[test]
fn rerunning_a_cycle_keeps_the_table_and_grows_history() {
    let mut store = Store::new();
    let pods = vec![pod("a", "1.1.1.1:9001", Some(1), Some(5)), pod("b", "1.1.1.2:9001", Some(1), Some(6))];
    run_cycle(&mut store, 100, Some(pods.clone()), &no_enrichment(2));
    let first = get_all_nodes(&store);
    run_cycle(&mut store, 100, Some(pods), &no_enrichment(2));
    assert_eq!(get_all_nodes(&store), first);
    assert_eq!(get_node_history(&store, "a", 100).len(), 2);
    assert_eq!(get_node_history(&store, "b", 100).len(), 2);
    assert_eq!(get_history(&store, 100).len(), 2);
}

#[test]
fn plan_has_one_record_and_sample_per_node() {
    let pods = vec![pod("a", "1.1.1.1:9001", Some(1), Some(5)), pod("a", "1.1.1.1:9001", Some(0), Some(5))];
    let plan = plan_cycle(9, &pods, &no_enrichment(2));
    assert_eq!(plan.records.len(), 2);
    assert_eq!(plan.samples.len(), 2);
    assert_eq!(plan.samples[1].pubkey, "a");
    assert_eq!(plan.samples[1].sample.status, Some("offline".to_string()));
    assert_eq!(plan.snapshot.total_nodes, 2);
}

#[test]
fn failover_reaches_the_answering_seed() {
    let seeds = vec!["A".to_string(), "B".to_string(), "C".to_string()];
    let (mut fetch, mut step) = SeedFailover::start(seeds);
    let mut tried = Vec::new();
    let pods = loop {
        match step {
            FetchStep::Try(seed) => {
                tried.push(seed.clone());
                let reply = if seed == "C" {
                    SeedReply::Answer {
                        list: Some(vec![pod("n1", "1.1.1.1:9001", Some(4), Some(1)), pod("n2", "1.1.1.2:9001", Some(0), Some(2))]),
                        nested: None,
                    }
                } else {
                    SeedReply::Unreachable
                };
                step = fetch.on_reply(reply);
            }
            FetchStep::Done(p) => break p,
            FetchStep::Exhausted => panic!("all seeds failed"),
        }
    };
    assert_eq!(tried.last().unwrap(), "C");
    assert!(tried.len() <= 3);
    let mut store = Store::new();
    run_cycle(&mut store, 1, Some(pods), &no_enrichment(2));
    assert_eq!(get_history(&store, 10)[0].total_nodes, 2);
    assert_eq!(get_node_history(&store, "n1", 10)[0].status, Some("online".to_string()));
    assert_eq!(get_node_history(&store, "n2", 10)[0].status, Some("offline".to_string()));
}

#[test]
fn failover_tries_every_seed_once_then_fails() {
    let seeds = vec!["A".to_string(), "B".to_string(), "C".to_string(), "D".to_string()];
    let (mut fetch, mut step) = SeedFailover::start(seeds);
    let mut tried = Vec::new();
    loop {
        match step {
            FetchStep::Try(seed) => {
                tried.push(seed);
                step = fetch.on_reply(SeedReply::Answer { list: None, nested: None });
            }
            FetchStep::Done(_) => panic!("no seed answered"),
            FetchStep::Exhausted => break,
        }
    }
    tried.sort();
    assert_eq!(tried, vec!["A", "B", "C", "D"]);
    let (_, empty) = SeedFailover::start(Vec::new());
    assert!(matches!(empty, FetchStep::Exhausted));
}

#[test]
fn nested_answer_shape_is_accepted() {
    let (mut fetch, step) = SeedFailover::start(vec!["A".to_string()]);
    assert!(matches!(step, FetchStep::Try(ref s) if s == "A"));
    let next = fetch.on_reply(SeedReply::Answer { list: None, nested: Some(vec![pod("n", "1.1.1.1:1", None, None)]) });
    match next {
        FetchStep::Done(p) => assert_eq!(p.len(), 1),
        _ => panic!("nested list not taken"),
    }
}

#[test]
fn geo_cache_looks_up_once() {
    let mut cache = GeoCache::new();
    let ip = "10.0.0.5".to_string();
    assert!(matches!(cache.begin(&ip), GeoStep::Lookup));
    let got = cache.finish(ip.clone(), Some(geo("Germany", "Munich")));
    assert_eq!(got, Some(geo("Germany", "Munich")));
    match cache.begin(&ip) {
        GeoStep::Cached(g) => assert_eq!(g, geo("Germany", "Munich")),
        GeoStep::Lookup => panic!("a cached IP was looked up again"),
    }
    assert!(matches!(cache.begin(&"10.0.0.6".to_string()), GeoStep::Lookup));
}

#[test]
fn geo_cache_does_not_remember_failures() {
    let mut cache = GeoCache::new();
    let ip = "10.0.0.7".to_string();
    assert_eq!(cache.finish(ip.clone(), None), None);
    assert!(matches!(cache.begin(&ip), GeoStep::Lookup));
}

#[test]
fn geo_answer_needs_success_status() {
    let g = geo_from_answer("success", Some(1.5f64.to_bits()), Some(2.5f64.to_bits()), Some("France".to_string()), None).unwrap();
    assert_eq!(g.lat_bits, 1.5f64.to_bits());
    assert_eq!(g.lon_bits, 2.5f64.to_bits());
    assert_eq!(g.country, "France");
    assert_eq!(g.city, "");
    assert_eq!(geo_from_answer("fail", Some(1), Some(2), None, None), None);
}

#[test]
fn geo_answer_without_coordinates_is_a_failure() {
    assert_eq!(geo_from_answer("success", Some(1.5f64.to_bits()), None, Some("France".to_string()), None), None);
    assert_eq!(geo_from_answer("success", None, Some(2.5f64.to_bits()), None, None), None);
    assert_eq!(geo_from_answer("success", None, None, None, None), None);
}

#[test]
fn incomplete_geo_answer_is_not_cached() {
    let mut cache = GeoCache::new();
    let ip = "10.0.0.8".to_string();
    let outcome = geo_from_answer("success", None, Some(1), None, None);
    assert_eq!(cache.finish(ip.clone(), outcome), None);
    assert!(matches!(cache.begin(&ip), GeoStep::Lookup));
}

#[test]
fn unknown_node_is_not_found() {
    let mut store = Store::new();
    upsert_node(&mut store, record("abc", "10.0.0.5:9001"));
    let r = get_node(&store, "xyz");
    assert!(matches!(r, Err(QueryError::NodeNotFound)));
    assert_eq!(QueryError::NodeNotFound.message(), "Node not found");
}

#[test]
fn node_found_by_identity_or_address() {
    let mut store = Store::new();
    upsert_node(&mut store, record("abc", "10.0.0.5:9001"));
    upsert_node(&mut store, record("def", "10.0.0.6:9001"));
    let by_key = get_node(&store, "def").ok().unwrap();
    assert_eq!(by_key.pubkey, Some("def".to_string()));
    let by_addr = get_node(&store, "0.0.5").ok().unwrap();
    assert_eq!(by_addr.pubkey, Some("abc".to_string()));
    assert_eq!(by_addr.uptime, None);
    assert_eq!(by_addr.is_public, None);
}

#[test]
fn pods_listing_nests_geo_when_latitude_stored() {
    let mut store = Store::new();
    let with_geo = build_node_record(
        &pod("g", "5.5.5.5:9001", Some(1), Some(1)),
        &Enrichment { latency_ms: Some(3), geo: Some(geo("Spain", "Madrid")) },
    );
    upsert_node(&mut store, with_geo);
    upsert_node(&mut store, record("n", "6.6.6.6:9001"));
    let listing = get_pods(&store);
    assert_eq!(listing.total_count, 2);
    assert_eq!(listing.pods[0].geo, Some(geo("Spain", "Madrid")));
    assert_eq!(listing.pods[0].latency_ms, Some(3));
    assert_eq!(listing.pods[1].geo, None);
}
