use vstd::prelude::*;

verus! {

/// Intensity that stands for 1.0.
pub const EMOTION_SCALE: u64 = 1_000_000;

/// Multiplier that stands for 1.0 in a decay rate.
pub const RATE_SCALE: u64 = 100;

/// The label of a villager's mood.
#[derive(Clone, Copy, Debug, PartialEq, Eq, Structural)]
pub enum Emotion {
    Happy,
    Angry,
    Fearful,
    Surprised,
    Disgusted,
    Sad,
    Neutral,
}

pub open spec fn emotion_label(e: Emotion) -> Seq<char> {
    match e {
        Emotion::Happy => "happy"@,
        Emotion::Angry => "angry"@,
        Emotion::Fearful => "fearful"@,
        Emotion::Surprised => "surprised"@,
        Emotion::Disgusted => "disgusted"@,
        Emotion::Sad => "sad"@,
        Emotion::Neutral => "neutral"@,
    }
}

impl Emotion {
    /// The lower-case word for this emotion.
    pub fn label(&self) -> (r: &'static str)
        ensures
            r@ == emotion_label(*self),
            r@.len() > 0,
    {
        proof {
            reveal_strlit("happy");
            reveal_strlit("angry");
            reveal_strlit("fearful");
            reveal_strlit("surprised");
            reveal_strlit("disgusted");
            reveal_strlit("sad");
            reveal_strlit("neutral");
        }
        match self {
            Emotion::Happy => "happy",
            Emotion::Angry => "angry",
            Emotion::Fearful => "fearful",
            Emotion::Surprised => "surprised",
            Emotion::Disgusted => "disgusted",
            Emotion::Sad => "sad",
            Emotion::Neutral => "neutral",
        }
    }
}

/// Six non-negative intensities, in millionths.
#[derive(Clone, Copy, Debug, PartialEq, Eq, Structural)]
pub struct EmotionalState {
    pub happiness: u64,
    pub anger: u64,
    pub fear: u64,
    pub surprise: u64,
    pub disgust: u64,
    pub sadness: u64,
}

/// Per-tick multipliers, in hundredths: 100 keeps a dimension unchanged.
#[derive(Clone, Copy, Debug, PartialEq, Eq, Structural)]
pub struct DecayRates {
    pub happiness: u64,
    pub anger: u64,
    pub fear: u64,
    pub surprise: u64,
    pub disgust: u64,
    pub sadness: u64,
}

pub open spec fn max2(a: u64, b: u64) -> u64 {
    if a >= b { a } else { b }
}

/// The largest of the six intensities.
pub open spec fn max_intensity(s: EmotionalState) -> u64 {
    max2(
        max2(max2(s.happiness, s.anger), max2(s.fear, s.surprise)),
        max2(s.disgust, s.sadness),
    )
}

/// The dimension with the largest intensity, the first in the order happiness,
/// anger, fear, surprise, disgust, sadness among equals; `Neutral` when all
/// six are zero.
pub open spec fn dominant_of(s: EmotionalState) -> Emotion {
    let m = max_intensity(s);
    if m == 0 {
        Emotion::Neutral
    } else if s.happiness == m {
        Emotion::Happy
    } else if s.anger == m {
        Emotion::Angry
    } else if s.fear == m {
        Emotion::Fearful
    } else if s.surprise == m {
        Emotion::Surprised
    } else if s.disgust == m {
        Emotion::Disgusted
    } else {
        Emotion::Sad
    }
}

/// The intensity of one dimension; zero for `Neutral`.
pub open spec fn intensity_of(s: EmotionalState, e: Emotion) -> u64 {
    match e {
        Emotion::Happy => s.happiness,
        Emotion::Angry => s.anger,
        Emotion::Fearful => s.fear,
        Emotion::Surprised => s.surprise,
        Emotion::Disgusted => s.disgust,
        Emotion::Sad => s.sadness,
        Emotion::Neutral => 0,
    }
}

/// Position of a dimension in the tie-break order; `Neutral` comes last.
pub open spec fn precedence(e: Emotion) -> nat {
    match e {
        Emotion::Happy => 0,
        Emotion::Angry => 1,
        Emotion::Fearful => 2,
        Emotion::Surprised => 3,
        Emotion::Disgusted => 4,
        Emotion::Sad => 5,
        Emotion::Neutral => 6,
    }
}

pub open spec fn scaled(v: u64, rate: u64) -> u64 {
    ((v as int * rate as int) / RATE_SCALE as int) as u64
}

/// `s` after one tick of decay at `rates`.
pub open spec fn decayed(s: EmotionalState, rates: DecayRates) -> EmotionalState {
    EmotionalState {
        happiness: scaled(s.happiness, rates.happiness),
        anger: scaled(s.anger, rates.anger),
        fear: scaled(s.fear, rates.fear),
        surprise: scaled(s.surprise, rates.surprise),
        disgust: scaled(s.disgust, rates.disgust),
        sadness: scaled(s.sadness, rates.sadness),
    }
}

impl DecayRates {
    pub open spec fn wf(&self) -> bool {
        &&& self.happiness <= RATE_SCALE
        &&& self.anger <= RATE_SCALE
        &&& self.fear <= RATE_SCALE
        &&& self.surprise <= RATE_SCALE
        &&& self.disgust <= RATE_SCALE
        &&& self.sadness <= RATE_SCALE
    }

    pub open spec fn standard_spec() -> DecayRates {
        DecayRates { happiness: 99, anger: 95, fear: 97, surprise: 100, disgust: 100, sadness: 100 }
    }

    /// Happiness keeps 99%, anger 95% and fear 97% each tick; the other three
    /// are not decayed.
    pub fn standard() -> (r: DecayRates)
        ensures
            r.wf(),
            r == DecayRates::standard_spec(),
    {
        DecayRates { happiness: 99, anger: 95, fear: 97, surprise: 100, disgust: 100, sadness: 100 }
    }
}

/// `v * rate / 100`, rounded down.
fn decay_value(v: u64, rate: u64) -> (r: u64)
    requires
        rate <= RATE_SCALE,
    ensures
        r == scaled(v, rate),
        r <= v,
{
    assert(v as int * rate as int <= v as int * 100) by (nonlinear_arith)
        requires rate <= 100;
    let p: u128 = v as u128 * rate as u128;
    (p / 100) as u64
}

impl EmotionalState {
    pub open spec fn new_spec() -> EmotionalState {
        EmotionalState {
            happiness: EMOTION_SCALE / 2,
            anger: 0,
            fear: 0,
            surprise: 0,
            disgust: 0,
            sadness: 0,
        }
    }

    /// The initial mood: happiness one half, everything else zero.
    pub fn new() -> (r: EmotionalState)
        ensures
            r == EmotionalState::new_spec(),
            dominant_of(r) == Emotion::Happy,
    {
        EmotionalState {
            happiness: EMOTION_SCALE / 2,
            anger: 0,
            fear: 0,
            surprise: 0,
            disgust: 0,
            sadness: 0,
        }
    }

    /// The strongest emotion, ties going to the earlier one in the order
    /// happiness, anger, fear, surprise, disgust, sadness; `Neutral` exactly
    /// when all six are zero.
    pub fn dominant_emotion(&self) -> (r: Emotion)
        ensures
            r == dominant_of(*self),
            r == Emotion::Neutral <==> max_intensity(*self) == 0,
            r != Emotion::Neutral ==> intensity_of(*self, r) == max_intensity(*self),
            forall|e: Emotion|
                #![trigger intensity_of(*self, e)]
                r != Emotion::Neutral && e != Emotion::Neutral && precedence(e) < precedence(r)
                    ==> intensity_of(*self, e) < intensity_of(*self, r),
    {
        let candidates: [(u64, Emotion); 6] = [
            (self.happiness, Emotion::Happy),
            (self.anger, Emotion::Angry),
            (self.fear, Emotion::Fearful),
            (self.surprise, Emotion::Surprised),
            (self.disgust, Emotion::Disgusted),
            (self.sadness, Emotion::Sad),
        ];
        let mut best = Emotion::Neutral;
        let mut best_value: u64 = 0;
        let mut i: usize = 0;
        while i < 6
            invariant
                i <= 6,
                candidates@ == seq![
                    (self.happiness, Emotion::Happy),
                    (self.anger, Emotion::Angry),
                    (self.fear, Emotion::Fearful),
                    (self.surprise, Emotion::Surprised),
                    (self.disgust, Emotion::Disgusted),
                    (self.sadness, Emotion::Sad),
                ],
                best_value == intensity_of(*self, best),
                best == Emotion::Neutral ==> best_value == 0,
                best == dominant_of(prefix_state(*self, i as nat)),
            decreases 6 - i,
        {
            let (v, e) = candidates[i];
            if v > best_value {
                best = e;
                best_value = v;
            }
            i = i + 1;
        }
        assert(prefix_state(*self, 6) == *self);
        best
    }

    /// Multiplies each intensity by its rate, rounding down.
    pub fn decay(&mut self, rates: DecayRates)
        requires
            rates.wf(),
        ensures
            *final(self) == decayed(*old(self), rates),
            final(self).happiness == scaled(old(self).happiness, rates.happiness),
            final(self).anger == scaled(old(self).anger, rates.anger),
            final(self).fear == scaled(old(self).fear, rates.fear),
            final(self).surprise == scaled(old(self).surprise, rates.surprise),
            final(self).disgust == scaled(old(self).disgust, rates.disgust),
            final(self).sadness == scaled(old(self).sadness, rates.sadness),
    {
        self.happiness = decay_value(self.happiness, rates.happiness);
        self.anger = decay_value(self.anger, rates.anger);
        self.fear = decay_value(self.fear, rates.fear);
        self.surprise = decay_value(self.surprise, rates.surprise);
        self.disgust = decay_value(self.disgust, rates.disgust);
        self.sadness = decay_value(self.sadness, rates.sadness);
    }
}

/// The state with only its first `n` dimensions, in precedence order, kept.
pub open spec fn prefix_state(s: EmotionalState, n: nat) -> EmotionalState {
    EmotionalState {
        happiness: if n > 0 { s.happiness } else { 0 },
        anger: if n > 1 { s.anger } else { 0 },
        fear: if n > 2 { s.fear } else { 0 },
        surprise: if n > 3 { s.surprise } else { 0 },
        disgust: if n > 4 { s.disgust } else { 0 },
        sadness: if n > 5 { s.sadness } else { 0 },
    }
}

} // verus!
