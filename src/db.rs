//! The persistence store: a table of current node records keyed by identity,
//! and two append-only series, fleet snapshots and per-node history samples.
use vstd::prelude::*;
use crate::model::{FleetSnapshot, HistoryRow, NodeHistoryRecord, NodeRecord};

verus! {

/// The table after replacing, in turn, the row of each record's identity by
/// that record.
pub open spec fn upsert_all(t: Map<Seq<char>, NodeRecord>, rs: Seq<NodeRecord>) -> Map<Seq<char>, NodeRecord>
    decreases rs.len(),
{
    if rs.len() == 0 {
        t
    } else {
        upsert_all(t, rs.drop_last()).insert(rs.last().pubkey@, rs.last())
    }
}

/// The last `limit` elements of a series, newest first.
pub open spec fn latest<T>(s: Seq<T>, limit: nat) -> Seq<T> {
    let n: nat = if limit < s.len() { limit } else { s.len() };
    Seq::new(n, |i: int| s[s.len() - 1 - i])
}

/// The samples of one node, in the order they were appended.
pub open spec fn samples_of(h: Seq<HistoryRow>, pk: Seq<char>) -> Seq<NodeHistoryRecord>
    decreases h.len(),
{
    if h.len() == 0 {
        Seq::empty()
    } else {
        let prev = samples_of(h.drop_last(), pk);
        if h.last().pubkey@ == pk {
            prev.push(h.last().sample)
        } else {
            prev
        }
    }
}

/// Every identity that a sequence of records writes.
pub open spec fn written_keys(rs: Seq<NodeRecord>) -> Set<Seq<char>> {
    Set::new(|k: Seq<char>| exists|i: int| 0 <= i < rs.len() && #[trigger] rs[i].pubkey@ == k)
}

proof fn lemma_upsert_all_off_keys(t: Map<Seq<char>, NodeRecord>, rs: Seq<NodeRecord>, k: Seq<char>)
    requires
        !written_keys(rs).contains(k),
    ensures
        upsert_all(t, rs).contains_key(k) == t.contains_key(k),
        t.contains_key(k) ==> upsert_all(t, rs)[k] == t[k],
    decreases rs.len(),
{
    if rs.len() > 0 {
        let p = rs.drop_last();
        assert(!written_keys(p).contains(k)) by {
            if written_keys(p).contains(k) {
                let i = choose|i: int| 0 <= i < p.len() && #[trigger] p[i].pubkey@ == k;
                assert(rs[i] == p[i]);
            }
        }
        assert(rs[rs.len() - 1].pubkey@ != k);
        lemma_upsert_all_off_keys(t, p, k);
    }
}

proof fn lemma_upsert_all_on_keys(t1: Map<Seq<char>, NodeRecord>, t2: Map<Seq<char>, NodeRecord>, rs: Seq<NodeRecord>, k: Seq<char>)
    requires
        written_keys(rs).contains(k),
    ensures
        upsert_all(t1, rs).contains_key(k),
        upsert_all(t2, rs).contains_key(k),
        upsert_all(t1, rs)[k] == upsert_all(t2, rs)[k],
    decreases rs.len(),
{
    let p = rs.drop_last();
    if rs.last().pubkey@ != k {
        assert(written_keys(p).contains(k)) by {
            let i = choose|i: int| 0 <= i < rs.len() && #[trigger] rs[i].pubkey@ == k;
            assert(i < rs.len() - 1);
            assert(p[i] == rs[i]);
        }
        lemma_upsert_all_on_keys(t1, t2, p, k);
    }
}

/// Replacing rows by the same records a second time leaves the table as the
/// first pass left it: upserts by identity are idempotent.
pub proof fn law_upsert_all_idempotent(t: Map<Seq<char>, NodeRecord>, rs: Seq<NodeRecord>)
    ensures
        upsert_all(upsert_all(t, rs), rs) == upsert_all(t, rs),
{
    let once = upsert_all(t, rs);
    let twice = upsert_all(once, rs);
    assert forall|k: Seq<char>| #[trigger] twice.contains_key(k) == once.contains_key(k)
        && (twice.contains_key(k) ==> twice[k] == once[k]) by {
        if written_keys(rs).contains(k) {
            lemma_upsert_all_on_keys(once, t, rs, k);
        } else {
            lemma_upsert_all_off_keys(once, rs, k);
        }
    }
    assert(twice =~= once);
}

/// Durable state: current node records plus the snapshot and history series.
pub struct Store {
    nodes: Vec<NodeRecord>,
    index: Ghost<Map<Seq<char>, NodeRecord>>,
    snapshots: Vec<FleetSnapshot>,
    history: Vec<HistoryRow>,
}

impl Store {
    /// The node rows, in the order identities were first written.
    pub closed spec fn rows(&self) -> Seq<NodeRecord> {
        self.nodes@
    }

    /// The node table: the current record of each identity.
    pub closed spec fn table(&self) -> Map<Seq<char>, NodeRecord> {
        self.index@
    }

    /// The fleet snapshots, oldest first.
    pub closed spec fn snapshots(&self) -> Seq<FleetSnapshot> {
        self.snapshots@
    }

    /// The history samples of all nodes, oldest first.
    pub closed spec fn history(&self) -> Seq<HistoryRow> {
        self.history@
    }

    /// At most one row per identity, and the rows are exactly the table.
    pub open spec fn wf(&self) -> bool {
        &&& forall|i: int, j: int|
            0 <= i < j < self.rows().len() ==> #[trigger] self.rows()[i].pubkey@ != #[trigger] self.rows()[j].pubkey@
        &&& forall|i: int|
            0 <= i < self.rows().len() ==> self.table().contains_key(#[trigger] self.rows()[i].pubkey@)
                && self.table()[self.rows()[i].pubkey@] == self.rows()[i]
        &&& forall|k: Seq<char>|
            #[trigger] self.table().contains_key(k) ==> exists|i: int|
                0 <= i < self.rows().len() && #[trigger] self.rows()[i].pubkey@ == k
    }

    /// An empty store.
    pub fn new() -> (s: Store)
        ensures
            s.wf(),
            s.table() == Map::<Seq<char>, NodeRecord>::empty(),
            s.rows().len() == 0,
            s.snapshots().len() == 0,
            s.history().len() == 0,
    {
        Store { nodes: Vec::new(), index: Ghost(Map::empty()), snapshots: Vec::new(), history: Vec::new() }
    }

    fn find_row(&self, pubkey: &String) -> (r: Option<usize>)
        ensures
            r.is_some() ==> r.unwrap() < self.rows().len() && self.rows()[r.unwrap() as int].pubkey@ == pubkey@,
            r.is_none() ==> forall|i: int| 0 <= i < self.rows().len() ==> #[trigger] self.rows()[i].pubkey@ != pubkey@,
    {
        let mut i: usize = 0;
        while i < self.nodes.len()
            invariant
                0 <= i <= self.nodes@.len(),
                forall|j: int| 0 <= j < i ==> #[trigger] self.nodes@[j].pubkey@ != pubkey@,
            decreases self.nodes@.len() - i,
        {
            if self.nodes[i].pubkey == *pubkey {
                return Some(i);
            }
            i = i + 1;
        }
        None
    }
}

/// Inserts `node`, or replaces the whole row of its identity by it.
pub fn upsert_node(store: &mut Store, node: NodeRecord)
    requires
        old(store).wf(),
    ensures
        final(store).wf(),
        final(store).table() == old(store).table().insert(node.pubkey@, node),
        final(store).snapshots() == old(store).snapshots(),
        final(store).history() == old(store).history(),
{
    let ghost g = node;
    let ghost before = store.nodes@;
    match store.find_row(&node.pubkey) {
        Some(i) => {
            store.nodes.set(i, node);
            store.index = Ghost(store.index@.insert(g.pubkey@, g));
            assert(store.nodes@ == before.update(i as int, g));
            assert(before[i as int].pubkey@ == g.pubkey@);
            assert forall|k: Seq<char>| #[trigger] store.index@.contains_key(k) implies exists|j: int|
                0 <= j < store.nodes@.len() && #[trigger] store.nodes@[j].pubkey@ == k by {
                if k != g.pubkey@ {
                    assert(old(store).table().contains_key(k));
                    let j = choose|j: int| 0 <= j < before.len() && #[trigger] before[j].pubkey@ == k;
                    assert(j != i);
                    assert(store.nodes@[j] == before[j]);
                } else {
                    assert(store.nodes@[i as int].pubkey@ == k);
                }
            }
        },
        None => {
            store.nodes.push(node);
            store.index = Ghost(store.index@.insert(g.pubkey@, g));
            assert(store.nodes@ == before.push(g));
            assert forall|k: Seq<char>| #[trigger] store.index@.contains_key(k) implies exists|j: int|
                0 <= j < store.nodes@.len() && #[trigger] store.nodes@[j].pubkey@ == k by {
                if k != g.pubkey@ {
                    assert(old(store).table().contains_key(k));
                    let j = choose|j: int| 0 <= j < before.len() && #[trigger] before[j].pubkey@ == k;
                    assert(store.nodes@[j] == before[j]);
                } else {
                    assert(store.nodes@[before.len() as int].pubkey@ == k);
                }
            }
        },
    }
}

/// All current node records.
pub fn get_all_nodes(store: &Store) -> (r: Vec<NodeRecord>)
    ensures
        r@ == store.rows(),
{
    let mut r: Vec<NodeRecord> = Vec::new();
    let mut i: usize = 0;
    while i < store.nodes.len()
        invariant
            0 <= i <= store.nodes@.len(),
            r@ == store.nodes@.subrange(0, i as int),
        decreases store.nodes@.len() - i,
    {
        r.push(store.nodes[i].duplicate());
        i = i + 1;
    }
    assert(r@ =~= store.nodes@);
    r
}

/// Appends one fleet snapshot.
pub fn save_snapshot(store: &mut Store, timestamp: i64, total_nodes: u64, online_nodes: u64, total_storage: i128)
    requires
        old(store).wf(),
    ensures
        final(store).wf(),
        final(store).snapshots() == old(store).snapshots().push(
            FleetSnapshot { timestamp, total_nodes, online_nodes, total_storage },
        ),
        final(store).table() == old(store).table(),
        final(store).rows() == old(store).rows(),
        final(store).history() == old(store).history(),
{
    store.snapshots.push(FleetSnapshot { timestamp, total_nodes, online_nodes, total_storage });
    assert(store.rows() == old(store).rows());
    assert(store.table() == old(store).table());
}

/// Appends one history sample for the node `pubkey`.
pub fn save_node_history(store: &mut Store, pubkey: String, timestamp: i64, latency_ms: Option<i64>, status: Option<String>)
    requires
        old(store).wf(),
    ensures
        final(store).wf(),
        final(store).history().len() == old(store).history().len() + 1,
        final(store).history().drop_last() == old(store).history(),
        final(store).history().last() == (HistoryRow { pubkey, sample: NodeHistoryRecord { timestamp, latency_ms, status } }),
        final(store).table() == old(store).table(),
        final(store).rows() == old(store).rows(),
        final(store).snapshots() == old(store).snapshots(),
{
    let row = HistoryRow { pubkey, sample: NodeHistoryRecord { timestamp, latency_ms, status } };
    store.history.push(row);
    assert(store.rows() == old(store).rows());
    assert(store.table() == old(store).table());
    assert(store.history@.drop_last() =~= old(store).history@);
}

/// The most recent fleet snapshots, newest first, at most `limit` of them.
pub fn get_history(store: &Store, limit: usize) -> (r: Vec<FleetSnapshot>)
    ensures
        r@ == latest(store.snapshots(), limit as nat),
{
    let len = store.snapshots.len();
    let n = if limit < len { limit } else { len };
    let mut r: Vec<FleetSnapshot> = Vec::new();
    let mut i: usize = 0;
    while i < n
        invariant
            len == store.snapshots@.len(),
            n <= len,
            n == (if limit < len { limit } else { len }),
            0 <= i <= n,
            r@.len() == i,
            forall|j: int| 0 <= j < i ==> #[trigger] r@[j] == store.snapshots@[len - 1 - j],
        decreases n - i,
    {
        r.push(store.snapshots[len - 1 - i]);
        i = i + 1;
    }
    assert(r@ =~= latest(store.snapshots(), limit as nat));
    r
}

/// The most recent samples of node `pubkey`, newest first, at most `limit`.
pub fn get_node_history(store: &Store, pubkey: &str, limit: usize) -> (r: Vec<NodeHistoryRecord>)
    ensures
        r@ == latest(samples_of(store.history(), pubkey@), limit as nat),
{
    let mut own: Vec<NodeHistoryRecord> = Vec::new();
    let mut i: usize = 0;
    while i < store.history.len()
        invariant
            0 <= i <= store.history@.len(),
            own@ == samples_of(store.history@.subrange(0, i as int), pubkey@),
        decreases store.history@.len() - i,
    {
        assert(store.history@.subrange(0, i + 1).drop_last() =~= store.history@.subrange(0, i as int));
        if crate::address::text_equals(store.history[i].pubkey.as_str(), pubkey) {
            own.push(store.history[i].sample.duplicate());
        }
        i = i + 1;
    }
    assert(store.history@.subrange(0, store.history@.len() as int) =~= store.history@);
    let len = own.len();
    let n = if limit < len { limit } else { len };
    let mut r: Vec<NodeHistoryRecord> = Vec::new();
    let mut k: usize = 0;
    while k < n
        invariant
            len == own@.len(),
            n == (if limit < len { limit } else { len }),
            0 <= k <= n,
            r@.len() == k,
            forall|j: int| 0 <= j < k ==> #[trigger] r@[j] == own@[len - 1 - j],
        decreases n - k,
    {
        r.push(own[len - 1 - k].duplicate());
        k = k + 1;
    }
    assert(r@ =~= latest(own@, limit as nat));
    r
}

} // verus!
