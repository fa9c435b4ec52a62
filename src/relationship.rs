use vstd::prelude::*;
use std::collections::HashMap;

verus! {

broadcast use vstd::std_specs::hash::group_hash_axioms;

/// The id of the one counterpart of the base village: the player.
pub const PLAYER: u64 = 0;

/// A score of `m` for counterpart `c`: zero where none was recorded.
pub open spec fn score_in(m: Map<u64, i64>, c: u64) -> int {
    if m.contains_key(c) {
        m[c] as int
    } else {
        0
    }
}

/// `m` with `delta` added to the score of `c`.
pub open spec fn bumped(m: Map<u64, i64>, c: u64, delta: i64) -> Map<u64, i64> {
    m.insert(c, (score_in(m, c) + delta) as i64)
}

/// `m` after `n` bumps of `delta` for `c`.
pub open spec fn bumped_times(m: Map<u64, i64>, c: u64, delta: i64, n: nat) -> Map<u64, i64>
    decreases n,
{
    if n == 0 {
        m
    } else {
        bumped(bumped_times(m, c, delta, (n - 1) as nat), c, delta)
    }
}

/// Affinity scores, in hundredths, keyed by counterpart id.
#[derive(Debug)]
pub struct RelationshipTracker {
    scores: HashMap<u64, i64>,
}

impl View for RelationshipTracker {
    type V = Map<u64, i64>;

    closed spec fn view(&self) -> Map<u64, i64> {
        self.scores@
    }
}

impl RelationshipTracker {
    /// A tracker with no scores.
    pub fn new() -> (r: RelationshipTracker)
        ensures
            r@ == Map::<u64, i64>::empty(),
    {
        RelationshipTracker { scores: HashMap::new() }
    }

    /// The score toward `counterpart`, zero if it was never bumped.
    pub fn get(&self, counterpart: u64) -> (r: i64)
        ensures
            r == score_in(self@, counterpart),
    {
        match self.scores.get(&counterpart) {
            Some(v) => *v,
            None => 0,
        }
    }

    /// Adds `delta` to the score toward `counterpart`, starting from zero.
    pub fn bump(&mut self, counterpart: u64, delta: i64)
        requires
            i64::MIN <= score_in(old(self)@, counterpart) + delta <= i64::MAX,
        ensures
            final(self)@ == bumped(old(self)@, counterpart, delta),
    {
        let current = self.get(counterpart);
        self.scores.insert(counterpart, current + delta);
    }
}

/// Bumps add up: after `n` bumps of `delta` from an empty tracker the score
/// is `n * delta`, and no other counterpart has one.
pub proof fn lemma_bumps_add_up(c: u64, delta: i64, n: nat)
    requires
        i64::MIN <= n * delta <= i64::MAX,
    ensures
        score_in(bumped_times(Map::empty(), c, delta, n), c) == n * delta,
        forall|o: u64| o != c ==> !bumped_times(Map::empty(), c, delta, n).contains_key(o),
    decreases n,
{
    if n > 0 {
        let k = (n - 1) as nat;
        assert(i64::MIN <= k * delta <= i64::MAX) by (nonlinear_arith)
            requires
                i64::MIN <= n * delta <= i64::MAX,
                k + 1 == n,
                n > 0,
        ;
        lemma_bumps_add_up(c, delta, k);
        assert(n * delta == k * delta + delta) by (nonlinear_arith)
            requires k + 1 == n;
        let prev = bumped_times(Map::empty(), c, delta, k);
        assert(bumped_times(Map::empty(), c, delta, n) == bumped(prev, c, delta));
        assert(score_in(prev, c) + delta == n * delta);
    } else {
        assert(n * delta == 0) by (nonlinear_arith)
            requires n == 0;
    }
}

} // verus!
