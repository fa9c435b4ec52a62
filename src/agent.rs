use vstd::prelude::*;
use crate::emotion::{DecayRates, Emotion, EmotionalState, decayed, dominant_of, emotion_label};
use crate::memory::{MAX_STORED, Memory, MemoryStore, RETAIN, after_record, lemma_record_count};
use crate::relationship::{RelationshipTracker, PLAYER, bumped, score_in};
use crate::text::{decimal, push_decimal, push_two_decimals, two_decimals};

verus! {

/// A trait value that stands for 1.0.
pub const TRAIT_SCALE: u32 = 1000;

/// Importance given to the memory of each interaction, in thousandths.
pub const RECORD_IMPORTANCE: u64 = 800;

/// What each interaction adds to the relationship, in hundredths.
pub const RELATIONSHIP_INCREMENT: i64 = 5;

/// A position on the village map, in pixels.
#[derive(Clone, Copy, Debug, PartialEq, Eq, Structural)]
pub struct Position {
    pub x: i32,
    pub y: i32,
}

/// Ten traits in thousandths, fixed when the villager is created.
#[derive(Clone, Copy, Debug, PartialEq, Eq, Structural)]
pub struct PersonalityProfile {
    pub openness: u32,
    pub conscientiousness: u32,
    pub extraversion: u32,
    pub agreeableness: u32,
    pub neuroticism: u32,
    pub greed: u32,
    pub loyalty: u32,
    pub curiosity: u32,
    pub humor: u32,
    pub romance: u32,
}

impl PersonalityProfile {
    pub open spec fn wf(&self) -> bool {
        &&& self.openness <= TRAIT_SCALE
        &&& self.conscientiousness <= TRAIT_SCALE
        &&& self.extraversion <= TRAIT_SCALE
        &&& self.agreeableness <= TRAIT_SCALE
        &&& self.neuroticism <= TRAIT_SCALE
        &&& self.greed <= TRAIT_SCALE
        &&& self.loyalty <= TRAIT_SCALE
        &&& self.curiosity <= TRAIT_SCALE
        &&& self.humor <= TRAIT_SCALE
        &&& self.romance <= TRAIT_SCALE
    }
}

/// How a villager is drawn, from its personality.
#[derive(Clone, Copy, Debug, PartialEq, Eq, Structural)]
pub enum Appearance {
    Extroverted,
    Agreeable,
    Neurotic,
    Plain,
}

/// First match wins: extraversion above 0.7, then agreeableness above 0.7,
/// then neuroticism above 0.7, else plain.
pub open spec fn appearance_of(p: PersonalityProfile) -> Appearance {
    if p.extraversion > 700 {
        Appearance::Extroverted
    } else if p.agreeableness > 700 {
        Appearance::Agreeable
    } else if p.neuroticism > 700 {
        Appearance::Neurotic
    } else {
        Appearance::Plain
    }
}

/// The personality-flavoured closing sentence of a response.
#[derive(Clone, Copy, Debug, PartialEq, Eq, Structural)]
pub enum Clause {
    Enthusiastic,
    Inquisitive,
    Transactional,
    Neutral,
}

/// First match wins: extraversion above 0.7, then curiosity above 0.8, then
/// greed above 0.6, else the neutral clause.
pub open spec fn clause_of(p: PersonalityProfile) -> Clause {
    if p.extraversion > 700 {
        Clause::Enthusiastic
    } else if p.curiosity > 800 {
        Clause::Inquisitive
    } else if p.greed > 600 {
        Clause::Transactional
    } else {
        Clause::Neutral
    }
}

pub open spec fn clause_text(c: Clause) -> Seq<char> {
    match c {
        Clause::Enthusiastic => "I love chatting with you!"@,
        Clause::Inquisitive => "Tell me more interesting things!"@,
        Clause::Transactional => "Got any gold for me?"@,
        Clause::Neutral => "How's your day going?"@,
    }
}

impl Clause {
    /// The sentence of this clause.
    pub fn text(&self) -> (r: &'static str)
        ensures
            r@ == clause_text(*self),
    {
        match self {
            Clause::Enthusiastic => "I love chatting with you!",
            Clause::Inquisitive => "Tell me more interesting things!",
            Clause::Transactional => "Got any gold for me?",
            Clause::Neutral => "How's your day going?",
        }
    }
}

/// The text of the memory of hearing `input`.
pub open spec fn heard(input: Seq<char>) -> Seq<char> {
    "Player said: "@ + input
}

/// The reply of a villager in mood `e` who holds `count` memories, has
/// relationship `rel` (in hundredths) and speaks with clause `c`.
pub open spec fn response_text(e: Emotion, count: nat, rel: int, c: Clause) -> Seq<char> {
    "I'm "@ + emotion_label(e) + ". I remember "@ + decimal(count)
        + " things about you. Our relationship is "@ + two_decimals(rel) + ". "@ + clause_text(c)
}

/// A villager: identity, personality, mood, memories, relationship to the
/// player and position.
#[derive(Debug)]
pub struct NpcAgent {
    name: String,
    personality: PersonalityProfile,
    emotional_state: EmotionalState,
    memories: MemoryStore,
    relationships: RelationshipTracker,
    position: Position,
}

impl NpcAgent {
    pub closed spec fn spec_name(&self) -> Seq<char> {
        self.name@
    }

    pub closed spec fn spec_personality(&self) -> PersonalityProfile {
        self.personality
    }

    pub closed spec fn spec_emotions(&self) -> EmotionalState {
        self.emotional_state
    }

    pub closed spec fn spec_memories(&self) -> MemoryStore {
        self.memories
    }

    pub closed spec fn spec_relationships(&self) -> Map<u64, i64> {
        self.relationships@
    }

    pub closed spec fn spec_position(&self) -> Position {
        self.position
    }

    pub open spec fn wf(&self) -> bool {
        &&& self.spec_memories().wf()
        &&& self.spec_memories().spec_cap() == MAX_STORED
        &&& self.spec_memories().spec_retain() == RETAIN
        &&& self.spec_personality().wf()
    }

    /// A villager with the initial mood, no memories and no relationship.
    pub fn new(name: String, personality: PersonalityProfile, position: Position) -> (r: NpcAgent)
        requires
            personality.wf(),
        ensures
            r.wf(),
            r.spec_name() == name@,
            r.spec_personality() == personality,
            r.spec_emotions() == EmotionalState::new_spec(),
            r.spec_memories()@ == Seq::<Memory>::empty(),
            r.spec_memories().spec_cap() == 50,
            r.spec_memories().spec_retain() == 40,
            r.spec_relationships() == Map::<u64, i64>::empty(),
            r.spec_position() == position,
    {
        NpcAgent {
            name,
            personality,
            emotional_state: EmotionalState::new(),
            memories: MemoryStore::new(),
            relationships: RelationshipTracker::new(),
            position,
        }
    }

    /// The villager's name.
    pub fn name(&self) -> (r: &String)
        ensures
            r@ == self.spec_name(),
    {
        &self.name
    }

    /// The personality traits.
    pub fn personality(&self) -> (r: PersonalityProfile)
        ensures
            r == self.spec_personality(),
    {
        self.personality
    }

    /// The current emotion intensities.
    pub fn emotional_state(&self) -> (r: EmotionalState)
        ensures
            r == self.spec_emotions(),
    {
        self.emotional_state
    }

    /// The strongest current emotion.
    pub fn dominant_emotion(&self) -> (r: Emotion)
        ensures
            r == dominant_of(self.spec_emotions()),
    {
        self.emotional_state.dominant_emotion()
    }

    /// The memory log.
    pub fn memories(&self) -> (r: &MemoryStore)
        ensures
            *r == self.spec_memories(),
    {
        &self.memories
    }

    /// The number of memories held.
    pub fn memory_count(&self) -> (r: usize)
        ensures
            r == self.spec_memories()@.len(),
    {
        self.memories.count()
    }

    /// The relationship to the player, in hundredths.
    pub fn relationship(&self) -> (r: i64)
        ensures
            r == score_in(self.spec_relationships(), PLAYER),
    {
        self.relationships.get(PLAYER)
    }

    /// Where the villager stands.
    pub fn position(&self) -> (r: Position)
        ensures
            r == self.spec_position(),
    {
        self.position
    }

    /// The closing sentence this villager's personality calls for.
    pub fn personality_clause(&self) -> (r: Clause)
        ensures
            r == clause_of(self.spec_personality()),
    {
        if self.personality.extraversion > 700 {
            Clause::Enthusiastic
        } else if self.personality.curiosity > 800 {
            Clause::Inquisitive
        } else if self.personality.greed > 600 {
            Clause::Transactional
        } else {
            Clause::Neutral
        }
    }

    /// How the villager is drawn.
    pub fn appearance(&self) -> (r: Appearance)
        ensures
            r == appearance_of(self.spec_personality()),
    {
        if self.personality.extraversion > 700 {
            Appearance::Extroverted
        } else if self.personality.agreeableness > 700 {
            Appearance::Agreeable
        } else if self.personality.neuroticism > 700 {
            Appearance::Neurotic
        } else {
            Appearance::Plain
        }
    }

    /// Applies one tick of emotional decay.
    pub fn decay(&mut self, rates: DecayRates)
        requires
            rates.wf(),
        ensures
            final(self).spec_emotions() == decayed(old(self).spec_emotions(), rates),
            final(self).spec_name() == old(self).spec_name(),
            final(self).spec_personality() == old(self).spec_personality(),
            final(self).spec_memories() == old(self).spec_memories(),
            final(self).spec_relationships() == old(self).spec_relationships(),
            final(self).spec_position() == old(self).spec_position(),
    {
        self.emotional_state.decay(rates);
    }

    /// Hears `input` from the player at time `now`: records the memory,
    /// raises the relationship by 0.05 and replies with the mood, the memory
    /// count and the relationship after both updates, and the personality
    /// clause.
    pub fn interact(&mut self, input: &str, now: u64) -> (r: String)
        requires
            old(self).wf(),
            score_in(old(self).spec_relationships(), PLAYER) + RELATIONSHIP_INCREMENT <= i64::MAX,
        ensures
            final(self).wf(),
            exists|m: Memory|
                #![trigger after_record(old(self).spec_memories()@, m, old(self).spec_memories().spec_cap(), old(self).spec_memories().spec_retain())]
                m.content@ == heard(input@) && m.importance == RECORD_IMPORTANCE
                    && m.timestamp == now && final(self).spec_memories()@ == after_record(
                    old(self).spec_memories()@,
                    m,
                    old(self).spec_memories().spec_cap(),
                    old(self).spec_memories().spec_retain(),
                ),
            final(self).spec_memories().spec_cap() == old(self).spec_memories().spec_cap(),
            final(self).spec_memories().spec_retain() == old(self).spec_memories().spec_retain(),
            final(self).spec_relationships() == bumped(
                old(self).spec_relationships(),
                PLAYER,
                RELATIONSHIP_INCREMENT,
            ),
            r@ == response_text(
                dominant_of(final(self).spec_emotions()),
                final(self).spec_memories()@.len(),
                score_in(final(self).spec_relationships(), PLAYER),
                clause_of(final(self).spec_personality()),
            ),
            r@.len() > 0,
            old(self).spec_memories()@.len() < old(self).spec_memories().spec_cap() ==> final(self).spec_memories()@.len() == old(self).spec_memories()@.len() + 1,
            final(self).spec_name() == old(self).spec_name(),
            final(self).spec_personality() == old(self).spec_personality(),
            final(self).spec_emotions() == old(self).spec_emotions(),
            final(self).spec_position() == old(self).spec_position(),
    {
        let mut content = String::from_str("Player said: ");
        content.append(input);
        let ghost heard_memory = Memory { content: content, importance: RECORD_IMPORTANCE, timestamp: now };
        proof {
            lemma_record_count(
                self.memories@,
                heard_memory,
                self.memories.spec_cap(),
                self.memories.spec_retain(),
            );
        }
        self.memories.record(content, RECORD_IMPORTANCE, now);
        self.relationships.bump(PLAYER, RELATIONSHIP_INCREMENT);
        let count = self.memories.count();
        let rel = self.relationships.get(PLAYER);
        let emotion = self.emotional_state.dominant_emotion();
        let clause = self.personality_clause();
        let mut r = String::from_str("I'm ");
        r.append(emotion.label());
        r.append(". I remember ");
        push_decimal(&mut r, count as u64);
        r.append(" things about you. Our relationship is ");
        push_two_decimals(&mut r, rel);
        r.append(". ");
        r.append(clause.text());
        proof {
            reveal_strlit("I'm ");
            assert(r@ =~= response_text(emotion, count as nat, rel as int, clause));
        }
        r
    }
}

} // verus!
