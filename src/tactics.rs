use vstd::prelude::*;
use std::collections::HashMap;
use crate::text::same_text;

verus! {

/// The team's overall attitude, from most defensive to most attacking.
#[derive(Debug, Clone, Copy, PartialEq, Eq, Structural)]
pub enum Mentality {
    VeryDefensive,
    Defensive,
    Cautious,
    Balanced,
    Positive,
    Attacking,
    VeryAttacking,
}

impl Mentality {
    /// The canonical name of the mentality.
    pub open spec fn name(self) -> Seq<char> {
        match self {
            Mentality::VeryDefensive => "Very Defensive"@,
            Mentality::Defensive => "Defensive"@,
            Mentality::Cautious => "Cautious"@,
            Mentality::Balanced => "Balanced"@,
            Mentality::Positive => "Positive"@,
            Mentality::Attacking => "Attacking"@,
            Mentality::VeryAttacking => "Very Attacking"@,
        }
    }

    /// The mentality with the given canonical name.
    pub fn from_name(s: &str) -> (r: Option<Mentality>)
        ensures
            match r {
                Some(m) => m.name() == s@,
                None => forall|m: Mentality| #[trigger] m.name() != s@,
            },
            forall|m: Mentality| #[trigger] m.name() == s@ ==> r == Some(m),
    {
        let r = if same_text(s, "Very Defensive") {
            Some(Mentality::VeryDefensive)
        } else if same_text(s, "Defensive") {
            Some(Mentality::Defensive)
        } else if same_text(s, "Cautious") {
            Some(Mentality::Cautious)
        } else if same_text(s, "Balanced") {
            Some(Mentality::Balanced)
        } else if same_text(s, "Positive") {
            Some(Mentality::Positive)
        } else if same_text(s, "Attacking") {
            Some(Mentality::Attacking)
        } else if same_text(s, "Very Attacking") {
            Some(Mentality::VeryAttacking)
        } else {
            None
        };
        proof {
            assert forall|m: Mentality| #[trigger] m.name() == s@ implies r == Some(m) by {
                if let Some(q) = r {
                    lemma_mentality_names_distinct(m, q);
                }
            }
        }
        r
    }

    pub fn as_str(&self) -> (r: &'static str)
        ensures
            r@ == self.name(),
    {
        match self {
            Mentality::VeryDefensive => "Very Defensive",
            Mentality::Defensive => "Defensive",
            Mentality::Cautious => "Cautious",
            Mentality::Balanced => "Balanced",
            Mentality::Positive => "Positive",
            Mentality::Attacking => "Attacking",
            Mentality::VeryAttacking => "Very Attacking",
        }
    }
}

/// How wide the team plays.
#[derive(Debug, Clone, Copy, PartialEq, Eq, Structural)]
pub enum Width {
    VeryNarrow,
    Narrow,
    Standard,
    Wide,
    VeryWide,
}

/// How quickly the team moves the ball.
#[derive(Debug, Clone, Copy, PartialEq, Eq, Structural)]
pub enum Tempo {
    VerySlow,
    Slow,
    Standard,
    Fast,
    VeryFast,
}

/// How hard the team presses.
#[derive(Debug, Clone, Copy, PartialEq, Eq, Structural)]
pub enum PressingIntensity {
    MuchLess,
    Less,
    Standard,
    More,
    MuchMore,
}

/// How high the back line stands.
#[derive(Debug, Clone, Copy, PartialEq, Eq, Structural)]
pub enum DefensiveLine {
    MuchDeeper,
    Deeper,
    Standard,
    Higher,
    MuchHigher,
}

/// Team-wide settings, carried beside a squad.
#[derive(Debug, Clone)]
pub struct Tactics {
    pub id: Option<i64>,
    pub name: String,
    pub mentality: Mentality,
    pub width: Width,
    pub tempo: Tempo,
    pub pressing_intensity: PressingIntensity,
    pub defensive_line: DefensiveLine,
    /// Further instructions, each on or off.
    pub team_instructions: HashMap<String, bool>,
    pub squad_id: Option<i64>,
}

impl Tactics {
    /// Whether every setting is at its middle value and no instruction is set.
    pub open spec fn is_default(&self) -> bool {
        &&& self.mentality == Mentality::Balanced
        &&& self.width == Width::Standard
        &&& self.tempo == Tempo::Standard
        &&& self.pressing_intensity == PressingIntensity::Standard
        &&& self.defensive_line == DefensiveLine::Standard
        &&& self.team_instructions@ == Map::<String, bool>::empty()
    }

    /// Tactics with every setting at its default.
    pub fn new(name: String) -> (r: Tactics)
        ensures
            r.id is None,
            r.name == name,
            r.is_default(),
            r.squad_id is None,
    {
        Tactics {
            id: None,
            name,
            mentality: Mentality::Balanced,
            width: Width::Standard,
            tempo: Tempo::Standard,
            pressing_intensity: PressingIntensity::Standard,
            defensive_line: DefensiveLine::Standard,
            team_instructions: HashMap::new(),
            squad_id: None,
        }
    }

    /// Default tactics attached to a squad.
    pub fn new_for_squad(name: String, squad_id: i64) -> (r: Tactics)
        ensures
            r.id is None,
            r.name == name,
            r.is_default(),
            r.squad_id == Some(squad_id),
    {
        let mut tactics = Self::new(name);
        tactics.squad_id = Some(squad_id);
        tactics
    }
}


/// Distinct mentalities have distinct names.
pub proof fn lemma_mentality_names_distinct(m: Mentality, n: Mentality)
    ensures
        m.name() == n.name() ==> m == n,
{
    reveal_strlit("Very Defensive");
    reveal_strlit("Defensive");
    reveal_strlit("Cautious");
    reveal_strlit("Balanced");
    reveal_strlit("Positive");
    reveal_strlit("Attacking");
    reveal_strlit("Very Attacking");
    if m.name() == n.name() {
        assert(m.name().len() == n.name().len());
        assert(m.name()[0] == n.name()[0]);
        if m.name().len() > 5 {
            assert(m.name()[5] == n.name()[5]);
        }
    }
}

} // verus!
