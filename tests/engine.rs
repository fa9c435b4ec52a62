use memory_village::{
    Appearance, Clause, DecayRates, Emotion, EmotionalState, MemoryStore, NpcAgent,
    PersonalityProfile, Population, Position, Prompt, RelationshipTracker, Session, Village,
    PLAYER, standard_roster,
};

fn profile(extraversion: u32, curiosity: u32, greed: u32) -> PersonalityProfile {
    PersonalityProfile {
        openness: 500,
        conscientiousness: 500,
        extraversion,
        agreeableness: 500,
        neuroticism: 500,
        greed,
        loyalty: 500,
        curiosity,
        humor: 500,
        romance: 500,
    }
}

fn state(h: u64, a: u64, f: u64, su: u64, d: u64, sa: u64) -> EmotionalState {
    EmotionalState { happiness: h, anger: a, fear: f, surprise: su, disgust: d, sadness: sa }
}

fn agent_at(name: &str, x: i32, y: i32) -> (String, PersonalityProfile, Position) {
    (name.to_string(), profile(500, 500, 500), Position { x, y })
}

#[test]
fn initial_state_is_happy() {
    let s = EmotionalState::new();
    assert_eq!(s.happiness, 500_000);
    assert_eq!(s.dominant_emotion(), Emotion::Happy);
    assert_eq!(s.dominant_emotion().label(), "happy");
}

#[test]
fn dominant_is_strict_maximum() {
    assert_eq!(state(1, 2, 3, 4, 5, 6).dominant_emotion(), Emotion::Sad);
    assert_eq!(state(1, 2, 9, 4, 5, 6).dominant_emotion(), Emotion::Fearful);
    assert_eq!(state(0, 0, 0, 7, 0, 0).dominant_emotion(), Emotion::Surprised);
    assert_eq!(state(0, 0, 0, 0, 3, 0).dominant_emotion(), Emotion::Disgusted);
}

#[test]
fn dominant_ties_follow_precedence() {
    assert_eq!(state(5, 5, 5, 5, 5, 5).dominant_emotion(), Emotion::Happy);
    assert_eq!(state(3, 5, 5, 0, 0, 5).dominant_emotion(), Emotion::Angry);
    assert_eq!(state(0, 0, 0, 2, 2, 2).dominant_emotion(), Emotion::Surprised);
}

#[test]
fn dominant_all_zero_is_neutral() {
    let s = state(0, 0, 0, 0, 0, 0);
    assert_eq!(s.dominant_emotion(), Emotion::Neutral);
    assert_eq!(s.dominant_emotion().label(), "neutral");
}

#[test]
fn decay_uses_standard_rates() {
    let mut s = state(500_000, 1_000_000, 1_000_000, 7, 8, 9);
    s.decay(DecayRates::standard());
    assert_eq!(s, state(495_000, 950_000, 970_000, 7, 8, 9));
    let mut z = state(1, 1, 1, 1, 1, 1);
    z.decay(DecayRates::standard());
    assert_eq!(z, state(0, 0, 0, 1, 1, 1));
}

#[test]
fn store_never_exceeds_cap() {
    let mut m = MemoryStore::new();
    for i in 0..200u64 {
        m.record(format!("event {}", i), i % 7, i);
        assert!(m.count() <= 50);
        if i == 50 {
            assert_eq!(m.count(), 40);
        }
    }
}

#[test]
fn store_counts_up_to_cap() {
    let mut m = MemoryStore::new();
    for i in 0..50u64 {
        m.record(String::new(), 1, i);
        assert_eq!(m.count(), (i + 1) as usize);
    }
    assert_eq!(m.entries()[0].timestamp, 0);
    assert_eq!(m.entries()[49].timestamp, 49);
}

#[test]
fn eviction_keeps_forty_most_important() {
    let mut m = MemoryStore::new();
    for i in 1..=51u64 {
        m.record(format!("memory {}", i), i, i);
    }
    assert_eq!(m.count(), 40);
    let kept: Vec<u64> = m.entries().iter().map(|e| e.importance).collect();
    let expected: Vec<u64> = (12..=51u64).rev().collect();
    assert_eq!(kept, expected);
    assert_eq!(m.entries()[0].content, "memory 51");
}

#[test]
fn eviction_ties_keep_recording_order() {
    let mut m = MemoryStore::new();
    for i in 0..51u64 {
        let importance = if i == 30 { 9 } else { 5 };
        m.record(format!("m{}", i), importance, i);
    }
    assert_eq!(m.count(), 40);
    assert_eq!(m.entries()[0].content, "m30");
    let rest: Vec<u64> = m.entries()[1..].iter().map(|e| e.timestamp).collect();
    let expected: Vec<u64> = (0..40u64).filter(|t| *t != 30).collect();
    assert_eq!(rest, expected);
}

#[test]
fn custom_limits() {
    let mut m = MemoryStore::with_limits(3, 2);
    for i in 0..4u64 {
        m.record(String::new(), i, i);
    }
    assert_eq!(m.count(), 2);
    assert_eq!(m.entries()[0].importance, 3);
    assert_eq!(m.entries()[1].importance, 2);
}

#[test]
fn relationship_defaults_to_zero() {
    let t = RelationshipTracker::new();
    assert_eq!(t.get(PLAYER), 0);
    assert_eq!(t.get(42), 0);
}

#[test]
fn relationship_bumps_add_up() {
    let mut t = RelationshipTracker::new();
    for n in 1..=20i64 {
        t.bump(PLAYER, 5);
        assert_eq!(t.get(PLAYER), 5 * n);
    }
    assert_eq!(t.get(7), 0);
    t.bump(7, -3);
    assert_eq!(t.get(7), -3);
}

#[test]
fn clause_priority_extraversion_first() {
    let a = NpcAgent::new("A".to_string(), profile(800, 900, 900), Position { x: 0, y: 0 });
    assert_eq!(a.personality_clause(), Clause::Enthusiastic);
    assert_eq!(a.personality_clause().text(), "I love chatting with you!");
}

#[test]
fn clause_decision_list() {
    let at = Position { x: 0, y: 0 };
    let b = NpcAgent::new("B".to_string(), profile(700, 900, 900), at);
    assert_eq!(b.personality_clause(), Clause::Inquisitive);
    let c = NpcAgent::new("C".to_string(), profile(700, 800, 700), at);
    assert_eq!(c.personality_clause(), Clause::Transactional);
    assert_eq!(c.personality_clause().text(), "Got any gold for me?");
    let d = NpcAgent::new("D".to_string(), profile(700, 800, 600), at);
    assert_eq!(d.personality_clause(), Clause::Neutral);
    assert_eq!(d.personality_clause().text(), "How's your day going?");
}

#[test]
fn first_interaction_scenario() {
    let mut a = NpcAgent::new("Tom".to_string(), profile(900, 200, 100), Position { x: 0, y: 0 });
    let r = a.interact("Hello!", 10);
    assert_eq!(a.memory_count(), 1);
    assert_eq!(a.relationship(), 5);
    assert_eq!(
        r,
        "I'm happy. I remember 1 things about you. Our relationship is 0.05. I love chatting with you!"
    );
    assert!(r.contains("happy"));
    assert_eq!(a.memories().entries()[0].content, "Player said: Hello!");
    assert_eq!(a.memories().entries()[0].importance, 800);
    assert_eq!(a.memories().entries()[0].timestamp, 10);
}

#[test]
fn interact_with_empty_input() {
    let mut a = NpcAgent::new("E".to_string(), profile(100, 100, 100), Position { x: 0, y: 0 });
    let before = a.memory_count();
    let r = a.interact("", 0);
    assert!(!r.is_empty());
    assert_eq!(a.memory_count(), before + 1);
    assert_eq!(a.memories().entries()[0].content, "Player said: ");
}

#[test]
fn interactions_accumulate() {
    let mut a = NpcAgent::new("F".to_string(), profile(100, 900, 100), Position { x: 0, y: 0 });
    let mut r = String::new();
    for i in 0..20u64 {
        r = a.interact("hi", i);
    }
    assert_eq!(a.relationship(), 100);
    assert_eq!(
        r,
        "I'm happy. I remember 20 things about you. Our relationship is 1.00. Tell me more interesting things!"
    );
}

#[test]
fn interaction_count_after_eviction() {
    let mut a = NpcAgent::new("G".to_string(), profile(100, 100, 100), Position { x: 0, y: 0 });
    let mut r = String::new();
    for i in 0..51u64 {
        r = a.interact("x", i);
    }
    assert_eq!(a.memory_count(), 40);
    assert!(r.contains("I remember 40 things"));
    assert!(r.contains("Our relationship is 2.55."));
}

#[test]
fn interact_leaves_emotions() {
    let mut a = NpcAgent::new("H".to_string(), profile(100, 100, 100), Position { x: 0, y: 0 });
    a.interact("x", 0);
    assert_eq!(a.emotional_state(), EmotionalState::new());
    assert_eq!(a.dominant_emotion(), Emotion::Happy);
}

#[test]
fn appearance_follows_traits() {
    let at = Position { x: 0, y: 0 };
    let roster = standard_roster();
    assert_eq!(roster.len(), 3);
    let mut p = profile(100, 100, 100);
    p.agreeableness = 800;
    assert_eq!(NpcAgent::new("I".to_string(), p, at).appearance(), Appearance::Agreeable);
    p.extraversion = 800;
    assert_eq!(NpcAgent::new("J".to_string(), p, at).appearance(), Appearance::Extroverted);
    let mut q = profile(100, 100, 100);
    q.agreeableness = 100;
    q.neuroticism = 800;
    assert_eq!(NpcAgent::new("K".to_string(), q, at).appearance(), Appearance::Neurotic);
    q.neuroticism = 700;
    assert_eq!(NpcAgent::new("L".to_string(), q, at).appearance(), Appearance::Plain);
}

#[test]
fn nearest_within_radius() {
    let pop = Population::new(vec![
        agent_at("a", 0, 0),
        agent_at("b", 30, 0),
        agent_at("c", 10, 0),
    ]);
    assert_eq!(pop.len(), 3);
    assert_eq!(pop.nearest_within(Position { x: 12, y: 0 }, 60), Some(2));
    assert_eq!(pop.nearest_within(Position { x: 0, y: 100 }, 60), None);
    assert_eq!(pop.nearest_within(Position { x: 0, y: 60 }, 60), None);
    assert_eq!(pop.nearest_within(Position { x: 0, y: 59 }, 60), Some(0));
}

#[test]
fn nearest_ties_go_to_first() {
    let pop = Population::new(vec![agent_at("a", 10, 0), agent_at("b", -10, 0)]);
    assert_eq!(pop.nearest_within(Position { x: 0, y: 0 }, 60), Some(0));
}

#[test]
fn tick_decays_every_agent() {
    let mut pop = Population::new(vec![agent_at("a", 0, 0), agent_at("b", 5, 5)]);
    pop.tick();
    assert_eq!(pop.agent(0).emotional_state().happiness, 495_000);
    assert_eq!(pop.agent(1).emotional_state().happiness, 495_000);
    pop.tick();
    assert_eq!(pop.agent(1).emotional_state().happiness, 490_050);
}

#[test]
fn total_memories_sums_agents() {
    let mut pop = Population::new(vec![agent_at("a", 0, 0), agent_at("b", 5, 5)]);
    pop.interact(0, "x", 0);
    pop.interact(1, "y", 0);
    pop.interact(1, "z", 1);
    assert_eq!(pop.total_memories(), 3);
    assert_eq!(pop.agent(1).memory_count(), 2);
}

#[test]
fn dialogue_session_cycle() {
    let mut v = Village::standard();
    assert!(matches!(v.session(), Session::Idle));
    assert!(!v.start_dialogue(Position { x: 0, y: 0 }, 0));
    assert!(matches!(v.session(), Session::Idle));
    assert!(v.start_dialogue(Position { x: 590, y: 210 }, 1));
    match v.session() {
        Session::InDialogue(d) => {
            assert_eq!(d.agent, 1);
            assert_eq!(d.selected, 0);
            assert_eq!(
                d.utterance,
                "I'm happy. I remember 1 things about you. Our relationship is 0.05. I love chatting with you!"
            );
        }
        Session::Idle => panic!("expected a dialogue"),
    }
    assert!(!v.start_dialogue(Position { x: 590, y: 210 }, 2));
    v.select_previous();
    v.select_next();
    v.select_next();
    assert!(v.say_selected(3));
    match v.session() {
        Session::InDialogue(d) => {
            assert_eq!(d.selected, 2);
            assert!(d.utterance.contains("I remember 2 things"));
        }
        Session::Idle => panic!("expected a dialogue"),
    }
    assert_eq!(
        v.population().agent(1).memories().entries()[1].content,
        "Player said: What do you think of me?"
    );
    v.select_next();
    v.select_next();
    v.select_next();
    match v.session() {
        Session::InDialogue(d) => assert_eq!(d.selected, 3),
        Session::Idle => panic!("expected a dialogue"),
    }
    assert!(v.say_selected(4));
    assert!(matches!(v.session(), Session::Idle));
    assert_eq!(v.population().agent(1).memory_count(), 2);
    assert!(!v.say_selected(5));
}

#[test]
fn prompts_in_order() {
    assert_eq!(Prompt::at(0).text(), "How are you today?");
    assert_eq!(Prompt::at(1).text(), "Tell me about your memories.");
    assert_eq!(Prompt::at(2).text(), "What do you think of me?");
    assert_eq!(Prompt::at(3), Prompt::Goodbye);
    assert_eq!(Prompt::at(3).text(), "Goodbye.");
}

#[test]
fn village_tick_decays() {
    let mut v = Village::standard();
    v.tick();
    assert_eq!(v.population().agent(0).emotional_state().happiness, 495_000);
    assert_eq!(v.population().agent(2).name(), "Elder");
}

#[test]
fn greeting_maya_in_standard_village() {
    let mut v = Village::standard();
    assert!(v.start_dialogue(Position { x: 200, y: 200 }, 0));
    match v.session() {
        Session::InDialogue(d) => {
            assert_eq!(d.agent, 0);
            assert_eq!(
                d.utterance,
                "I'm happy. I remember 1 things about you. Our relationship is 0.05. How's your day going?"
            );
        }
        Session::Idle => panic!("expected a dialogue"),
    }
    assert_eq!(v.population().agent(0).name(), "Maya");
    assert_eq!(v.population().agent(0).memory_count(), 1);
    assert_eq!(v.population().agent(1).memory_count(), 0);
    assert_eq!(v.population().agent(2).memory_count(), 0);
}

#[test]
fn radius_is_strict_in_standard_village() {
    let mut v = Village::standard();
    assert!(!v.start_dialogue(Position { x: 260, y: 200 }, 0));
    assert!(matches!(v.session(), Session::Idle));
    assert_eq!(v.population().total_memories(), 0);
}

#[test]
fn first_prompt_to_tom() {
    let mut v = Village::standard();
    assert!(v.start_dialogue(Position { x: 600, y: 200 }, 0));
    assert!(v.say_selected(1));
    let tom = v.population().agent(1);
    assert_eq!(tom.memory_count(), 2);
    assert_eq!(tom.memories().entries()[1].content, "Player said: How are you today?");
    match v.session() {
        Session::InDialogue(d) => assert_eq!(
            d.utterance,
            "I'm happy. I remember 2 things about you. Our relationship is 0.10. I love chatting with you!"
        ),
        Session::Idle => panic!("expected a dialogue"),
    }
}

#[test]
fn history_count_cycles() {
    let mut m = MemoryStore::new();
    for k in 1..=100u64 {
        m.record(String::new(), k % 13, k);
        let expected = if k <= 50 { k } else { 40 + (k - 51) % 11 };
        assert_eq!(m.count() as u64, expected);
    }
}
