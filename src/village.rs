use vstd::prelude::*;
use crate::agent::{PersonalityProfile, Position, RELATIONSHIP_INCREMENT, clause_of, response_text};
use crate::emotion::{DecayRates, dominant_of};
use crate::population::{Population, fresh, hears, is_nearest_within, none_within, ticked};
use crate::relationship::{PLAYER, score_in};

verus! {

/// How close the player must stand to a villager to start talking.
pub const INTERACT_RADIUS: u32 = 60;

/// Number of prompts offered in a dialogue.
pub const PROMPT_COUNT: usize = 4;

/// What the player can say in a dialogue; `Goodbye` ends it.
#[derive(Clone, Copy, Debug, PartialEq, Eq, Structural)]
pub enum Prompt {
    HowAreYou,
    YourMemories,
    OpinionOfMe,
    Goodbye,
}

/// The prompts in the order they are offered.
pub open spec fn prompt_at(i: int) -> Prompt {
    if i == 0 {
        Prompt::HowAreYou
    } else if i == 1 {
        Prompt::YourMemories
    } else if i == 2 {
        Prompt::OpinionOfMe
    } else {
        Prompt::Goodbye
    }
}

pub open spec fn prompt_text(p: Prompt) -> Seq<char> {
    match p {
        Prompt::HowAreYou => "How are you today?"@,
        Prompt::YourMemories => "Tell me about your memories."@,
        Prompt::OpinionOfMe => "What do you think of me?"@,
        Prompt::Goodbye => "Goodbye."@,
    }
}

impl Prompt {
    /// The prompt offered at position `i`.
    pub fn at(i: usize) -> (r: Prompt)
        requires
            i < PROMPT_COUNT,
        ensures
            r == prompt_at(i as int),
    {
        if i == 0 {
            Prompt::HowAreYou
        } else if i == 1 {
            Prompt::YourMemories
        } else if i == 2 {
            Prompt::OpinionOfMe
        } else {
            Prompt::Goodbye
        }
    }

    /// The words the player says.
    pub fn text(&self) -> (r: &'static str)
        ensures
            r@ == prompt_text(*self),
    {
        match self {
            Prompt::HowAreYou => "How are you today?",
            Prompt::YourMemories => "Tell me about your memories.",
            Prompt::OpinionOfMe => "What do you think of me?",
            Prompt::Goodbye => "Goodbye.",
        }
    }
}

/// An open conversation: the villager, its last reply and the highlighted
/// prompt.
#[derive(Debug)]
pub struct Dialogue {
    pub agent: usize,
    pub utterance: String,
    pub selected: usize,
}

/// Whether the player is talking to someone.
#[derive(Debug)]
pub enum Session {
    Idle,
    InDialogue(Dialogue),
}

/// The villagers and the player's conversation with them.
#[derive(Debug)]
pub struct Village {
    population: Population,
    session: Session,
}

/// The reply of villager `id` of `p`, as its state stands.
pub open spec fn reply_of(p: Seq<crate::agent::NpcAgent>, id: int) -> Seq<char> {
    response_text(
        dominant_of(p[id].spec_emotions()),
        p[id].spec_memories()@.len(),
        score_in(p[id].spec_relationships(), PLAYER),
        clause_of(p[id].spec_personality()),
    )
}

/// The name of villager `i` of the base village.
pub open spec fn standard_name(i: int) -> Seq<char> {
    if i == 0 {
        "Maya"@
    } else if i == 1 {
        "Tom"@
    } else {
        "Elder"@
    }
}

/// The personality of villager `i` of the base village.
pub open spec fn standard_profile(i: int) -> PersonalityProfile {
    if i == 0 {
        PersonalityProfile {
            openness: 300,
            conscientiousness: 900,
            extraversion: 200,
            agreeableness: 600,
            neuroticism: 300,
            greed: 200,
            loyalty: 800,
            curiosity: 400,
            humor: 300,
            romance: 700,
        }
    } else if i == 1 {
        PersonalityProfile {
            openness: 700,
            conscientiousness: 600,
            extraversion: 900,
            agreeableness: 800,
            neuroticism: 400,
            greed: 100,
            loyalty: 600,
            curiosity: 900,
            humor: 700,
            romance: 800,
        }
    } else {
        PersonalityProfile {
            openness: 900,
            conscientiousness: 800,
            extraversion: 300,
            agreeableness: 500,
            neuroticism: 800,
            greed: 100,
            loyalty: 700,
            curiosity: 800,
            humor: 400,
            romance: 100,
        }
    }
}

/// Where villager `i` of the base village stands.
pub open spec fn standard_position(i: int) -> Position {
    if i == 0 {
        Position { x: 200, y: 200 }
    } else if i == 1 {
        Position { x: 600, y: 200 }
    } else {
        Position { x: 400, y: 100 }
    }
}

/// The three villagers of the base village: Maya the blacksmith, Tom the
/// baker and the Elder.
pub fn standard_roster() -> (r: Vec<(String, PersonalityProfile, Position)>)
    ensures
        r@.len() == 3,
        forall|i: int|
            #![trigger r@[i]]
            0 <= i < 3 ==> r@[i].0@ == standard_name(i) && r@[i].1 == standard_profile(i)
                && r@[i].2 == standard_position(i) && r@[i].1.wf(),
        forall|i: int, j: int|
            0 <= i < r@.len() && 0 <= j < r@.len() && i != j ==> #[trigger] r@[i].0@
                != #[trigger] r@[j].0@,
{
    let mut r: Vec<(String, PersonalityProfile, Position)> = Vec::new();
    r.push((
        String::from_str("Maya"),
        PersonalityProfile {
            openness: 300,
            conscientiousness: 900,
            extraversion: 200,
            agreeableness: 600,
            neuroticism: 300,
            greed: 200,
            loyalty: 800,
            curiosity: 400,
            humor: 300,
            romance: 700,
        },
        Position { x: 200, y: 200 },
    ));
    r.push((
        String::from_str("Tom"),
        PersonalityProfile {
            openness: 700,
            conscientiousness: 600,
            extraversion: 900,
            agreeableness: 800,
            neuroticism: 400,
            greed: 100,
            loyalty: 600,
            curiosity: 900,
            humor: 700,
            romance: 800,
        },
        Position { x: 600, y: 200 },
    ));
    r.push((
        String::from_str("Elder"),
        PersonalityProfile {
            openness: 900,
            conscientiousness: 800,
            extraversion: 300,
            agreeableness: 500,
            neuroticism: 800,
            greed: 100,
            loyalty: 700,
            curiosity: 800,
            humor: 400,
            romance: 100,
        },
        Position { x: 400, y: 100 },
    ));
    proof {
        reveal_strlit("Maya");
        reveal_strlit("Tom");
        reveal_strlit("Elder");
        assert(r@[0].0@ == standard_name(0));
        assert(r@[1].0@ == standard_name(1));
        assert(r@[2].0@ == standard_name(2));
    }
    r
}

impl Village {
    pub closed spec fn spec_population(&self) -> Population {
        self.population
    }

    pub closed spec fn spec_session(&self) -> &Session {
        &self.session
    }

    pub open spec fn wf(&self) -> bool {
        &&& self.spec_population().wf()
        &&& match self.spec_session() {
            Session::Idle => true,
            Session::InDialogue(d) => d.agent < self.spec_population()@.len() && d.selected
                < PROMPT_COUNT,
        }
    }

    /// A village of the roster's villagers, with no conversation open.
    pub fn new(roster: Vec<(String, PersonalityProfile, Position)>) -> (r: Village)
        requires
            forall|i: int, j: int|
                0 <= i < roster@.len() && 0 <= j < roster@.len() && i != j ==> #[trigger] roster@[i].0@
                    != #[trigger] roster@[j].0@,
            forall|i: int| 0 <= i < roster@.len() ==> (#[trigger] roster@[i]).1.wf(),
        ensures
            r.wf(),
            r.spec_population()@.len() == roster@.len(),
            forall|i: int|
                #![trigger r.spec_population()@[i]]
                0 <= i < roster@.len() ==> fresh(
                    r.spec_population()@[i],
                    roster@[i].0@,
                    roster@[i].1,
                    roster@[i].2,
                ),
            r.spec_session() is Idle,
    {
        Village { population: Population::new(roster), session: Session::Idle }
    }

    /// The base village, with no conversation open.
    pub fn standard() -> (r: Village)
        ensures
            r.wf(),
            r.spec_population()@.len() == 3,
            forall|i: int|
                #![trigger r.spec_population()@[i]]
                0 <= i < 3 ==> fresh(
                    r.spec_population()@[i],
                    standard_name(i),
                    standard_profile(i),
                    standard_position(i),
                ),
            r.spec_session() is Idle,
    {
        Village::new(standard_roster())
    }

    /// The villagers.
    pub fn population(&self) -> (r: &Population)
        ensures
            *r == self.spec_population(),
    {
        &self.population
    }

    /// The conversation state.
    pub fn session(&self) -> (r: &Session)
        ensures
            r == self.spec_session(),
    {
        &self.session
    }

    /// With no conversation open, greets the nearest villager within reach of
    /// `player` and opens a conversation with it, the first prompt
    /// highlighted. Returns whether a conversation was opened; nothing
    /// changes when none was.
    pub fn start_dialogue(&mut self, player: Position, now: u64) -> (r: bool)
        requires
            old(self).wf(),
        ensures
            final(self).wf(),
            final(self).spec_population()@.len() == old(self).spec_population()@.len(),
            !r ==> *final(self) == *old(self),
            old(self).spec_session() is Idle && none_within(
                old(self).spec_population()@,
                player,
                INTERACT_RADIUS,
            ) ==> !r,
            old(self).spec_session() is InDialogue ==> !r,
            forall|i: int|
                #![trigger is_nearest_within(old(self).spec_population()@, player, INTERACT_RADIUS, i)]
                old(self).spec_session() is Idle && is_nearest_within(
                    old(self).spec_population()@,
                    player,
                    INTERACT_RADIUS,
                    i,
                ) && score_in(old(self).spec_population()@[i].spec_relationships(), PLAYER)
                    + RELATIONSHIP_INCREMENT <= i64::MAX ==> r,
            r ==> match final(self).spec_session() {
                Session::InDialogue(d) => {
                    &&& is_nearest_within(
                        old(self).spec_population()@,
                        player,
                        INTERACT_RADIUS,
                        d.agent as int,
                    )
                    &&& hears(
                        old(self).spec_population()@,
                        final(self).spec_population()@,
                        d.agent as int,
                        "Hello!"@,
                        now,
                    )
                    &&& d.selected == 0
                    &&& d.utterance@ == reply_of(final(self).spec_population()@, d.agent as int)
                },
                Session::Idle => false,
            },
    {
        if let Session::InDialogue(_) = &self.session {
            return false;
        }
        match self.population.nearest_within(player, INTERACT_RADIUS) {
            None => false,
            Some(id) => {
                if self.population.agent(id).relationship() > i64::MAX - RELATIONSHIP_INCREMENT {
                    return false;
                }
                let utterance = self.population.interact(id, "Hello!", now);
                self.session = Session::InDialogue(Dialogue { agent: id, utterance, selected: 0 });
                true
            },
        }
    }

    /// Highlights the prompt above the current one, if there is one.
    pub fn select_previous(&mut self)
        requires
            old(self).wf(),
        ensures
            final(self).wf(),
            final(self).spec_population() == old(self).spec_population(),
            match (old(self).spec_session(), final(self).spec_session()) {
                (Session::InDialogue(a), Session::InDialogue(b)) => b.agent == a.agent
                    && b.utterance == a.utterance && b.selected == if a.selected > 0 {
                    a.selected - 1
                } else {
                    a.selected as int
                },
                (Session::Idle, Session::Idle) => true,
                _ => false,
            },
    {
        if let Session::InDialogue(d) = &mut self.session {
            if d.selected > 0 {
                d.selected = d.selected - 1;
            }
        }
    }

    /// Highlights the prompt below the current one, if there is one.
    pub fn select_next(&mut self)
        requires
            old(self).wf(),
        ensures
            final(self).wf(),
            final(self).spec_population() == old(self).spec_population(),
            match (old(self).spec_session(), final(self).spec_session()) {
                (Session::InDialogue(a), Session::InDialogue(b)) => b.agent == a.agent
                    && b.utterance == a.utterance && b.selected == if a.selected + 1
                    < PROMPT_COUNT {
                    a.selected + 1
                } else {
                    a.selected as int
                },
                (Session::Idle, Session::Idle) => true,
                _ => false,
            },
    {
        if let Session::InDialogue(d) = &mut self.session {
            if d.selected + 1 < PROMPT_COUNT {
                d.selected = d.selected + 1;
            }
        }
    }

    /// Says the highlighted prompt. `Goodbye` closes the conversation; any
    /// other prompt is heard by the villager at time `now`, whose reply
    /// replaces the last one. Returns whether the prompt was said; nothing
    /// changes when it was not.
    pub fn say_selected(&mut self, now: u64) -> (r: bool)
        requires
            old(self).wf(),
        ensures
            final(self).wf(),
            final(self).spec_population()@.len() == old(self).spec_population()@.len(),
            !r ==> *final(self) == *old(self),
            old(self).spec_session() is Idle ==> !r,
            match old(self).spec_session() {
                Session::InDialogue(a) => score_in(
                    old(self).spec_population()@[a.agent as int].spec_relationships(),
                    PLAYER,
                ) + RELATIONSHIP_INCREMENT <= i64::MAX ==> r,
                Session::Idle => true,
            },
            match old(self).spec_session() {
                Session::InDialogue(a) => {
                    prompt_at(a.selected as int) == Prompt::Goodbye ==> r && final(self).spec_session() is Idle && final(self).spec_population() == old(self).spec_population()
                },
                Session::Idle => true,
            },
            r ==> match (old(self).spec_session(), final(self).spec_session()) {
                (Session::InDialogue(a), Session::InDialogue(b)) => {
                    &&& prompt_at(a.selected as int) != Prompt::Goodbye
                    &&& hears(
                        old(self).spec_population()@,
                        final(self).spec_population()@,
                        a.agent as int,
                        prompt_text(prompt_at(a.selected as int)),
                        now,
                    )
                    &&& b.agent == a.agent
                    &&& b.selected == a.selected
                    &&& b.utterance@ == reply_of(final(self).spec_population()@, b.agent as int)
                },
                (Session::InDialogue(a), Session::Idle) => prompt_at(a.selected as int)
                    == Prompt::Goodbye,
                _ => false,
            },
    {
        let (agent, selected) = match &self.session {
            Session::Idle => {
                return false;
            },
            Session::InDialogue(d) => (d.agent, d.selected),
        };
        let prompt = Prompt::at(selected);
        if prompt == Prompt::Goodbye {
            self.session = Session::Idle;
            return true;
        }
        if self.population.agent(agent).relationship() > i64::MAX - RELATIONSHIP_INCREMENT {
            return false;
        }
        let utterance = self.population.interact(agent, prompt.text(), now);
        self.session = Session::InDialogue(Dialogue { agent, utterance, selected });
        true
    }

    /// One frame: every villager's emotions decay at the standard rates.
    pub fn tick(&mut self)
        requires
            old(self).wf(),
        ensures
            final(self).wf(),
            final(self).spec_session() == old(self).spec_session(),
            ticked(
                old(self).spec_population()@,
                final(self).spec_population()@,
                DecayRates::standard_spec(),
            ),
    {
        self.population.tick();
    }
}

} // verus!
