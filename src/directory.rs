//! Fleet discovery across seed addresses: shuffle the seeds, then try each in
//! turn until one gives a well-formed node list.
use vstd::prelude::*;
use rand::seq::SliceRandom;
use crate::model::PodRaw;

verus! {

/// Relies on rand's `SliceRandom::shuffle` driven by `thread_rng`: it only
/// swaps elements, so the result holds the same seeds in some order.
#[verifier::external_body]
fn shuffle_seeds(v: &mut Vec<String>)
    ensures
        final(v)@.len() == old(v)@.len(),
        final(v)@.to_multiset() == old(v)@.to_multiset(),
{
    let mut rng = rand::thread_rng();
    v.shuffle(&mut rng);
}

/// What one seed answered.
pub enum SeedReply {
    /// The call failed or timed out.
    Unreachable,
    /// A response arrived; `list` is its result read as a bare node list,
    /// `nested` its result read as an object holding a `pods` list.
    Answer { list: Option<Vec<PodRaw>>, nested: Option<Vec<PodRaw>> },
}

/// What discovery does next.
pub enum FetchStep {
    /// A seed answered with this node list; discovery is over.
    Done(Vec<PodRaw>),
    /// Call this seed next.
    Try(String),
    /// Every seed failed: the fetch fails and the cycle contributes nothing.
    Exhausted,
}

/// The step that follows once the seed at `pos` of `order` is the one to call.
pub open spec fn next_step(order: Seq<String>, pos: nat, r: FetchStep) -> bool {
    if pos < order.len() {
        r == FetchStep::Try(order[pos as int])
    } else {
        r is Exhausted
    }
}

/// One round of discovery over a shuffled list of seeds.
pub struct SeedFailover {
    order: Vec<String>,
    pos: usize,
}

impl SeedFailover {
    /// The seeds in the order they are tried.
    pub closed spec fn order(&self) -> Seq<String> {
        self.order@
    }

    /// How many seeds have failed so far; the seed in flight is at this index.
    pub closed spec fn position(&self) -> nat {
        self.pos as nat
    }

    /// Shuffles `seeds` and names the first seed to call.
    pub fn start(seeds: Vec<String>) -> (r: (SeedFailover, FetchStep))
        ensures
            r.0.order().len() == seeds@.len(),
            r.0.order().to_multiset() == seeds@.to_multiset(),
            r.0.position() == 0,
            next_step(r.0.order(), 0, r.1),
    {
        let mut order = seeds;
        shuffle_seeds(&mut order);
        let step = if order.len() > 0 { FetchStep::Try(order[0].clone()) } else { FetchStep::Exhausted };
        (SeedFailover { order, pos: 0 }, step)
    }

    /// Takes the answer of the seed in flight: its node list if the result
    /// reads as a bare list, else as a nested list; otherwise the next seed.
    pub fn on_reply(&mut self, reply: SeedReply) -> (r: FetchStep)
        requires
            old(self).position() < old(self).order().len(),
        ensures
            final(self).order() == old(self).order(),
            match reply {
                SeedReply::Answer { list: Some(l), nested: _ } => r == FetchStep::Done(l)
                    && final(self).position() == old(self).position(),
                SeedReply::Answer { list: None, nested: Some(n) } => r == FetchStep::Done(n)
                    && final(self).position() == old(self).position(),
                _ => final(self).position() == old(self).position() + 1
                    && next_step(final(self).order(), final(self).position(), r),
            },
    {
        match reply {
            SeedReply::Answer { list: Some(l), nested: _ } => FetchStep::Done(l),
            SeedReply::Answer { list: None, nested: Some(n) } => FetchStep::Done(n),
            _ => {
                let n = self.order.len();
                self.pos = self.pos + 1;
                if self.pos < n {
                    FetchStep::Try(self.order[self.pos].clone())
                } else {
                    FetchStep::Exhausted
                }
            },
        }
    }
}

} // verus!
