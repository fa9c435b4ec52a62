//! Cognitive state of the villagers in a small village simulation: personality,
//! emotion, a bounded memory log, a relationship score, response generation
//! and the population that owns them.
//!
//! All scalars are fixed-point integers: personality traits in thousandths,
//! emotion intensities in millionths, memory importance in thousandths and
//! relationship scores in hundredths.

pub mod emotion;
pub mod memory;
pub mod relationship;
pub mod text;
pub mod agent;
pub mod population;
pub mod village;

pub use emotion::{DecayRates, Emotion, EmotionalState};
pub use memory::{Memory, MemoryStore};
pub use relationship::{RelationshipTracker, PLAYER};
pub use agent::{Appearance, Clause, NpcAgent, PersonalityProfile, Position};
pub use population::Population;
pub use village::{Dialogue, Prompt, Session, Village, standard_roster};
