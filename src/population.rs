use vstd::prelude::*;
use crate::agent::{
    NpcAgent, PersonalityProfile, Position, RECORD_IMPORTANCE, RELATIONSHIP_INCREMENT, heard,
    response_text,
};
use crate::emotion::{DecayRates, EmotionalState, decayed};
use crate::memory::{MAX_STORED, Memory, RETAIN, after_record};
use crate::relationship::bumped;
use crate::relationship::{PLAYER, score_in};

verus! {

/// The squared Euclidean distance between two positions.
pub open spec fn dist2(a: Position, b: Position) -> int {
    (a.x - b.x) * (a.x - b.x) + (a.y - b.y) * (a.y - b.y)
}

fn distance_squared(a: Position, b: Position) -> (r: u128)
    ensures
        r == dist2(a, b),
{
    let dx: i128 = a.x as i128 - b.x as i128;
    let dy: i128 = a.y as i128 - b.y as i128;
    assert(0 <= dx * dx <= 0x1_0000_0000_0000_0000) by (nonlinear_arith)
        requires -0x1_0000_0000 <= dx <= 0x1_0000_0000;
    assert(0 <= dy * dy <= 0x1_0000_0000_0000_0000) by (nonlinear_arith)
        requires -0x1_0000_0000 <= dy <= 0x1_0000_0000;
    (dx * dx + dy * dy) as u128
}

/// Agent `i` of `agents` is the nearest to `pos` strictly within `radius`,
/// the first such in order among equals.
pub open spec fn is_nearest_within(agents: Seq<NpcAgent>, pos: Position, radius: u32, i: int) -> bool {
    &&& 0 <= i < agents.len()
    &&& dist2(agents[i].spec_position(), pos) < radius * radius
    &&& forall|j: int|
        0 <= j < agents.len() ==> dist2(agents[j].spec_position(), pos) >= dist2(
            agents[i].spec_position(),
            pos,
        )
    &&& forall|j: int|
        0 <= j < i ==> dist2(agents[j].spec_position(), pos) > dist2(
            agents[i].spec_position(),
            pos,
        )
}

/// No agent of `agents` is strictly within `radius` of `pos`.
pub open spec fn none_within(agents: Seq<NpcAgent>, pos: Position, radius: u32) -> bool {
    forall|j: int| 0 <= j < agents.len() ==> dist2(agents[j].spec_position(), pos) >= radius * radius
}

/// `a` is a villager just created from `name`, `p` and `pos`: no memories,
/// no relationship and the initial mood.
pub open spec fn fresh(a: NpcAgent, name: Seq<char>, p: PersonalityProfile, pos: Position) -> bool {
    &&& a.spec_name() == name
    &&& a.spec_personality() == p
    &&& a.spec_position() == pos
    &&& a.spec_memories()@.len() == 0
    &&& a.spec_relationships() == Map::<u64, i64>::empty()
    &&& a.spec_emotions() == EmotionalState::new_spec()
}

/// `new` is `old` after villager `id` heard `input` from the player at time
/// `now`: it recorded the memory and raised its relationship, and nothing
/// else changed.
pub open spec fn hears(
    old: Seq<NpcAgent>,
    new: Seq<NpcAgent>,
    id: int,
    input: Seq<char>,
    now: u64,
) -> bool {
    &&& 0 <= id < old.len()
    &&& new.len() == old.len()
    &&& forall|j: int| 0 <= j < old.len() && j != id ==> new[j] == old[j]
    &&& new[id].spec_name() == old[id].spec_name()
    &&& new[id].spec_personality() == old[id].spec_personality()
    &&& new[id].spec_emotions() == old[id].spec_emotions()
    &&& new[id].spec_position() == old[id].spec_position()
    &&& new[id].spec_relationships() == bumped(
        old[id].spec_relationships(),
        PLAYER,
        RELATIONSHIP_INCREMENT,
    )
    &&& exists|m: Memory|
        #![trigger after_record(old[id].spec_memories()@, m, MAX_STORED as nat, RETAIN as nat)]
        m.content@ == heard(input) && m.importance == RECORD_IMPORTANCE && m.timestamp == now
            && new[id].spec_memories()@ == after_record(
            old[id].spec_memories()@,
            m,
            MAX_STORED as nat,
            RETAIN as nat,
        )
}

/// `new` is `old` after one tick at `rates`: every mood decayed, and nothing
/// else changed.
pub open spec fn ticked(old: Seq<NpcAgent>, new: Seq<NpcAgent>, rates: DecayRates) -> bool {
    &&& new.len() == old.len()
    &&& forall|j: int|
        #![trigger new[j]]
        0 <= j < old.len() ==> {
            &&& new[j].spec_emotions() == decayed(old[j].spec_emotions(), rates)
            &&& new[j].spec_name() == old[j].spec_name()
            &&& new[j].spec_personality() == old[j].spec_personality()
            &&& new[j].spec_memories() == old[j].spec_memories()
            &&& new[j].spec_relationships() == old[j].spec_relationships()
            &&& new[j].spec_position() == old[j].spec_position()
        }
}

/// The number of memories held by all of `agents`.
pub open spec fn total_count(agents: Seq<NpcAgent>) -> int
    decreases agents.len(),
{
    if agents.len() == 0 {
        0
    } else {
        total_count(agents.drop_last()) + agents.last().spec_memories()@.len()
    }
}

/// The villagers, addressed by their index, which stays fixed.
#[derive(Debug)]
pub struct Population {
    agents: Vec<NpcAgent>,
}

impl View for Population {
    type V = Seq<NpcAgent>;

    closed spec fn view(&self) -> Seq<NpcAgent> {
        self.agents@
    }
}

impl Population {
    pub open spec fn wf(&self) -> bool {
        &&& forall|i: int| 0 <= i < self@.len() ==> #[trigger] self@[i].wf()
        &&& forall|i: int, j: int|
            0 <= i < self@.len() && 0 <= j < self@.len() && i != j ==> #[trigger] self@[i].spec_name()
                != #[trigger] self@[j].spec_name()
    }

    /// One villager for each roster entry of name, personality and position,
    /// in roster order.
    pub fn new(roster: Vec<(String, PersonalityProfile, Position)>) -> (r: Population)
        requires
            forall|i: int, j: int|
                0 <= i < roster@.len() && 0 <= j < roster@.len() && i != j ==> #[trigger] roster@[i].0@
                    != #[trigger] roster@[j].0@,
            forall|i: int| 0 <= i < roster@.len() ==> (#[trigger] roster@[i]).1.wf(),
        ensures
            r.wf(),
            r@.len() == roster@.len(),
            forall|i: int|
                #![trigger r@[i]]
                0 <= i < roster@.len() ==> fresh(r@[i], roster@[i].0@, roster@[i].1, roster@[i].2),
    {
        let ghost orig = roster@;
        let mut rest = roster;
        let mut agents: Vec<NpcAgent> = Vec::new();
        while rest.len() > 0
            invariant
                agents@.len() + rest@.len() == orig.len(),
                rest@ == orig.subrange(agents@.len() as int, orig.len() as int),
                forall|i: int, j: int|
                    0 <= i < orig.len() && 0 <= j < orig.len() && i != j ==> #[trigger] orig[i].0@
                        != #[trigger] orig[j].0@,
                forall|i: int| 0 <= i < orig.len() ==> (#[trigger] orig[i]).1.wf(),
                forall|i: int|
                    #![trigger agents@[i]]
                    0 <= i < agents@.len() ==> agents@[i].wf() && fresh(
                        agents@[i],
                        orig[i].0@,
                        orig[i].1,
                        orig[i].2,
                    ),
            decreases rest@.len(),
        {
            let (name, personality, position) = rest.remove(0);
            proof {
                assert(orig[agents@.len() as int] == (name, personality, position));
            }
            let agent = NpcAgent::new(name, personality, position);
            agents.push(agent);
            proof {
                assert(rest@ =~= orig.subrange(agents@.len() as int, orig.len() as int));
            }
        }
        Population { agents }
    }

    /// The number of villagers.
    pub fn len(&self) -> (r: usize)
        ensures
            r == self@.len(),
    {
        self.agents.len()
    }

    /// `a` is a villager just created from `name`, `p` and `pos`: no memories,
/// no relationship and the initial mood.
pub open spec fn fresh(a: NpcAgent, name: Seq<char>, p: PersonalityProfile, pos: Position) -> bool {
    &&& a.spec_name() == name
    &&& a.spec_personality() == p
    &&& a.spec_position() == pos
    &&& a.spec_memories()@.len() == 0
    &&& a.spec_relationships() == Map::<u64, i64>::empty()
    &&& a.spec_emotions() == EmotionalState::new_spec()
}

/// `new` is `old` after villager `id` heard `input` from the player at time
/// `now`: it recorded the memory and raised its relationship, and nothing
/// else changed.
pub open spec fn hears(
    old: Seq<NpcAgent>,
    new: Seq<NpcAgent>,
    id: int,
    input: Seq<char>,
    now: u64,
) -> bool {
    &&& 0 <= id < old.len()
    &&& new.len() == old.len()
    &&& forall|j: int| 0 <= j < old.len() && j != id ==> new[j] == old[j]
    &&& new[id].spec_name() == old[id].spec_name()
    &&& new[id].spec_personality() == old[id].spec_personality()
    &&& new[id].spec_emotions() == old[id].spec_emotions()
    &&& new[id].spec_position() == old[id].spec_position()
    &&& new[id].spec_relationships() == bumped(
        old[id].spec_relationships(),
        PLAYER,
        RELATIONSHIP_INCREMENT,
    )
    &&& exists|m: Memory|
        #![trigger after_record(old[id].spec_memories()@, m, MAX_STORED as nat, RETAIN as nat)]
        m.content@ == heard(input) && m.importance == RECORD_IMPORTANCE && m.timestamp == now
            && new[id].spec_memories()@ == after_record(
            old[id].spec_memories()@,
            m,
            MAX_STORED as nat,
            RETAIN as nat,
        )
}

/// `new` is `old` after one tick at `rates`: every mood decayed, and nothing
/// else changed.
pub open spec fn ticked(old: Seq<NpcAgent>, new: Seq<NpcAgent>, rates: DecayRates) -> bool {
    &&& new.len() == old.len()
    &&& forall|j: int|
        #![trigger new[j]]
        0 <= j < old.len() ==> {
            &&& new[j].spec_emotions() == decayed(old[j].spec_emotions(), rates)
            &&& new[j].spec_name() == old[j].spec_name()
            &&& new[j].spec_personality() == old[j].spec_personality()
            &&& new[j].spec_memories() == old[j].spec_memories()
            &&& new[j].spec_relationships() == old[j].spec_relationships()
            &&& new[j].spec_position() == old[j].spec_position()
        }
}

/// The number of memories held by all villagers together.
    pub fn total_memories(&self) -> (r: usize)
        requires
            self.wf(),
            self@.len() * MAX_STORED <= usize::MAX,
        ensures
            r == total_count(self@),
    {
        let mut sum: usize = 0;
        let mut i: usize = 0;
        while i < self.agents.len()
            invariant
                self.wf(),
                i <= self@.len(),
                self@.len() * MAX_STORED <= usize::MAX,
                sum == total_count(self@.take(i as int)),
                sum <= i * MAX_STORED,
            decreases self@.len() - i,
        {
            let c = self.agents[i].memory_count();
            proof {
                assert(self@[i as int].wf());
                assert(self@.take(i + 1 as int).drop_last() =~= self@.take(i as int));
                assert((i + 1) * MAX_STORED <= self@.len() * MAX_STORED) by (nonlinear_arith)
                    requires i + 1 <= self@.len();
            }
            sum = sum + c;
            i = i + 1;
        }
        proof {
            assert(self@.take(i as int) =~= self@);
        }
        sum
    }

    /// The villager with index `id`.
    pub fn agent(&self, id: usize) -> (r: &NpcAgent)
        requires
            id < self@.len(),
        ensures
            *r == self@[id as int],
    {
        &self.agents[id]
    }

    /// The index of the villager nearest to `pos` at a distance strictly
    /// below `radius`, the first in order among equals; `None` when no
    /// villager is that close.
    pub fn nearest_within(&self, pos: Position, radius: u32) -> (r: Option<usize>)
        ensures
            match r {
                Some(i) => is_nearest_within(self@, pos, radius, i as int),
                None => none_within(self@, pos, radius),
            },
    {
        assert(radius * radius <= 0x1_0000_0000_0000_0000) by (nonlinear_arith)
            requires radius <= 0xffff_ffff;
        let limit: u128 = radius as u128 * radius as u128;
        let mut best: Option<usize> = None;
        let mut best_d: u128 = limit;
        let mut i: usize = 0;
        while i < self.agents.len()
            invariant
                i <= self@.len(),
                limit == radius * radius,
                match best {
                    Some(b) => {
                        &&& b < i
                        &&& best_d == dist2(self@[b as int].spec_position(), pos)
                        &&& best_d < limit
                        &&& forall|j: int|
                            0 <= j < i ==> dist2(self@[j].spec_position(), pos) >= best_d
                        &&& forall|j: int|
                            0 <= j < b ==> dist2(self@[j].spec_position(), pos) > best_d
                    },
                    None => {
                        &&& best_d == limit
                        &&& forall|j: int|
                            0 <= j < i ==> dist2(self@[j].spec_position(), pos) >= limit
                    },
                },
            decreases self@.len() - i,
        {
            let d = distance_squared(self.agents[i].position(), pos);
            if d < best_d {
                best = Some(i);
                best_d = d;
            }
            i = i + 1;
        }
        best
    }

    /// The villager `id` hears `input` at time `now` and replies; the others
    /// are untouched.
    pub fn interact(&mut self, id: usize, input: &str, now: u64) -> (r: String)
        requires
            old(self).wf(),
            id < old(self)@.len(),
            score_in(old(self)@[id as int].spec_relationships(), PLAYER) + RELATIONSHIP_INCREMENT
                <= i64::MAX,
        ensures
            final(self).wf(),
            final(self)@.len() == old(self)@.len(),
            hears(old(self)@, final(self)@, id as int, input@, now),
            r@ == response_text(
                crate::emotion::dominant_of(final(self)@[id as int].spec_emotions()),
                final(self)@[id as int].spec_memories()@.len(),
                score_in(final(self)@[id as int].spec_relationships(), PLAYER),
                crate::agent::clause_of(final(self)@[id as int].spec_personality()),
            ),
    {
        let r = self.agents[id].interact(input, now);
        r
    }

    /// One tick with the standard decay rates.
    pub fn tick(&mut self)
        requires
            old(self).wf(),
        ensures
            final(self).wf(),
            ticked(old(self)@, final(self)@, DecayRates::standard_spec()),
    {
        self.tick_with(DecayRates::standard());
    }

    /// One tick: every villager's emotions decay at `rates`, independently.
    pub fn tick_with(&mut self, rates: DecayRates)
        requires
            old(self).wf(),
            rates.wf(),
        ensures
            final(self).wf(),
            ticked(old(self)@, final(self)@, rates),
    {
        let mut i: usize = 0;
        while i < self.agents.len()
            invariant
                i <= self@.len(),
                self@.len() == old(self)@.len(),
                rates.wf(),
                old(self).wf(),
                forall|j: int|
                    #![trigger self@[j]]
                    0 <= j < old(self)@.len() ==> {
                        &&& self@[j].spec_emotions() == if j < i {
                            decayed(old(self)@[j].spec_emotions(), rates)
                        } else {
                            old(self)@[j].spec_emotions()
                        }
                        &&& self@[j].spec_name() == old(self)@[j].spec_name()
                        &&& self@[j].spec_personality() == old(self)@[j].spec_personality()
                        &&& self@[j].spec_memories() == old(self)@[j].spec_memories()
                        &&& self@[j].spec_relationships() == old(self)@[j].spec_relationships()
                        &&& self@[j].spec_position() == old(self)@[j].spec_position()
                    },
            decreases self@.len() - i,
        {
            self.agents[i].decay(rates);
            i = i + 1;
        }
        proof {
            assert forall|j: int| 0 <= j < self@.len() implies #[trigger] self@[j].wf() by {
                assert(old(self)@[j].wf());
            }
            assert forall|a: int, b: int|
                0 <= a < self@.len() && 0 <= b < self@.len() && a != b implies #[trigger] self@[a].spec_name()
                    != #[trigger] self@[b].spec_name() by {
                assert(old(self)@[a].spec_name() != old(self)@[b].spec_name());
            }
        }
    }
}

} // verus!
