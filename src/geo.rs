//! The geographic enrichment cache: a lookup is issued only on a miss, and
//! only successful answers are remembered.
use vstd::prelude::*;
use dashmap::DashMap;
use crate::model::GeoData;

verus! {

#[verifier::external_type_specification]
#[verifier::external_body]
#[verifier::reject_recursive_types(K)]
#[verifier::reject_recursive_types(V)]
#[verifier::reject_recursive_types(S)]
pub struct ExDashMap<K, V, S>(DashMap<K, V, S>);

/// What a map of cached answers holds, by IP.
pub uninterp spec fn geo_entries(m: DashMap<String, GeoData>) -> Map<Seq<char>, GeoData>;

/// Relies on `DashMap::new`: a new map holds nothing.
#[verifier::external_body]
fn geo_map_new() -> (r: DashMap<String, GeoData>)
    ensures
        forall|k: Seq<char>| !(#[trigger] geo_entries(r).contains_key(k)),
{
    DashMap::new()
}

/// Relies on `DashMap::get`: the value stored under the key, if any.
#[verifier::external_body]
fn geo_map_get(m: &DashMap<String, GeoData>, ip: &String) -> (r: Option<GeoData>)
    ensures
        geo_entries(*m).contains_key(ip@) ==> r == Some(geo_entries(*m)[ip@]),
        !geo_entries(*m).contains_key(ip@) ==> r.is_none(),
{
    m.get(ip).map(|e| e.value().clone())
}

/// Relies on `DashMap::insert`: the key now maps to the value, others unchanged.
#[verifier::external_body]
fn geo_map_insert(m: &mut DashMap<String, GeoData>, ip: String, g: GeoData)
    ensures
        geo_entries(*final(m)) == geo_entries(*old(m)).insert(ip@, g),
{
    m.insert(ip, g);
}

/// What resolving an IP needs next.
pub enum GeoStep {
    /// The answer is cached; no lookup is made.
    Cached(GeoData),
    /// Not cached: wait briefly, then ask the lookup service once.
    Lookup,
}

/// The step for `ip` given the cached entries.
pub open spec fn geo_step_spec(entries: Map<Seq<char>, GeoData>, ip: Seq<char>) -> GeoStep {
    if entries.contains_key(ip) {
        GeoStep::Cached(entries[ip])
    } else {
        GeoStep::Lookup
    }
}

/// The entries after a lookup of `ip` came back with `outcome`: a success is
/// stored, a failure is not.
pub open spec fn after_lookup(entries: Map<Seq<char>, GeoData>, ip: Seq<char>, outcome: Option<GeoData>) -> Map<Seq<char>, GeoData> {
    match outcome {
        Some(g) => entries.insert(ip, g),
        None => entries,
    }
}

/// Lookups issued by resolving `ip` twice in a row, the first lookup (if one
/// is made) answering `outcome`.
pub open spec fn lookups_for_two_resolves(entries: Map<Seq<char>, GeoData>, ip: Seq<char>, outcome: Option<GeoData>) -> nat {
    match geo_step_spec(entries, ip) {
        GeoStep::Cached(_) => 0,
        GeoStep::Lookup => 1 + match geo_step_spec(after_lookup(entries, ip, outcome), ip) {
            GeoStep::Cached(_) => 0nat,
            GeoStep::Lookup => 1nat,
        },
    }
}

/// Resolving the same IP twice in sequence issues at most one lookup, unless
/// the first lookup failed (failures are not cached); and a cached IP is never
/// looked up.
pub proof fn law_second_resolve_is_cached(entries: Map<Seq<char>, GeoData>, ip: Seq<char>, outcome: Option<GeoData>)
    requires
        geo_step_spec(entries, ip) is Lookup ==> outcome.is_some(),
    ensures
        lookups_for_two_resolves(entries, ip, outcome) <= 1,
        entries.contains_key(ip) ==> lookups_for_two_resolves(entries, ip, outcome) == 0,
{
}

/// Cache of geographic answers by bare IP, never expired.
pub struct GeoCache {
    entries: DashMap<String, GeoData>,
}

impl GeoCache {
    /// The cached answers, by IP.
    pub closed spec fn entries(&self) -> Map<Seq<char>, GeoData> {
        geo_entries(self.entries)
    }

    /// An empty cache.
    pub fn new() -> (c: GeoCache)
        ensures
            c.entries() == Map::<Seq<char>, GeoData>::empty(),
    {
        let c = GeoCache { entries: geo_map_new() };
        assert(c.entries() =~= Map::<Seq<char>, GeoData>::empty());
        c
    }

    /// The next step in resolving `ip`: the cached answer, or a lookup.
    pub fn begin(&self, ip: &String) -> (r: GeoStep)
        ensures
            r == geo_step_spec(self.entries(), ip@),
    {
        match geo_map_get(&self.entries, ip) {
            Some(g) => GeoStep::Cached(g),
            None => GeoStep::Lookup,
        }
    }

    /// Records the outcome of a lookup of `ip` and returns the resolved data.
    pub fn finish(&mut self, ip: String, outcome: Option<GeoData>) -> (r: Option<GeoData>)
        ensures
            final(self).entries() == after_lookup(old(self).entries(), ip@, outcome),
            r == outcome,
    {
        match outcome {
            Some(g) => {
                let kept = g.duplicate();
                geo_map_insert(&mut self.entries, ip, g);
                Some(kept)
            },
            None => None,
        }
    }
}

/// The geographic data of a lookup answer: present exactly when the answer's
/// status is `success` and it carries both coordinates; missing names are
/// taken as empty. Any other answer counts as a failed lookup.
pub fn geo_from_answer(status: &str, lat_bits: Option<u64>, lon_bits: Option<u64>, country: Option<String>, city: Option<String>) -> (r: Option<GeoData>)
    ensures
        r.is_some() <==> (status@ == "success"@ && lat_bits.is_some() && lon_bits.is_some()),
        r.is_some() ==> r.unwrap().lat_bits == lat_bits.unwrap()
            && r.unwrap().lon_bits == lon_bits.unwrap()
            && r.unwrap().country@ == crate::address::text_or_empty(country)
            && r.unwrap().city@ == crate::address::text_or_empty(city),
{
    proof {
        reveal_strlit("success");
    }
    if !crate::address::text_equals(status, "success") {
        return None;
    }
    match (lat_bits, lon_bits) {
        (Some(lat), Some(lon)) => Some(GeoData {
            lat_bits: lat,
            lon_bits: lon,
            country: match country { Some(c) => c, None => String::new() },
            city: match city { Some(c) => c, None => String::new() },
        }),
        _ => None,
    }
}

} // verus!
