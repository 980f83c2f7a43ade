use vstd::prelude::*;
use crate::text::same_text;

verus! {

/// A pitch position.
#[derive(Debug, Clone, Copy, PartialEq, Eq, Hash, Structural)]
pub enum Position {
    /// Goalkeeper
    GK,
    /// Defender, right
    DR,
    /// Defender, centre
    DC,
    /// Defender, left
    DL,
    /// Wing back, right
    WBR,
    /// Wing back, left
    WBL,
    /// Defensive midfielder, centre
    DMC,
    /// Midfielder, centre
    MC,
    /// Midfielder, right
    MR,
    /// Midfielder, left
    ML,
    /// Attacking midfielder, right
    AMR,
    /// Attacking midfielder, left
    AML,
    /// Attacking midfielder, centre
    AMC,
    /// Striker, centre
    STC,
}

impl Position {
    /// The canonical code of the position, as used at the storage and API boundary.
    pub open spec fn code(self) -> Seq<char> {
        match self {
            Position::GK => "GK"@,
            Position::DR => "DR"@,
            Position::DC => "DC"@,
            Position::DL => "DL"@,
            Position::WBR => "WBR"@,
            Position::WBL => "WBL"@,
            Position::DMC => "DMC"@,
            Position::MC => "MC"@,
            Position::MR => "MR"@,
            Position::ML => "ML"@,
            Position::AMR => "AMR"@,
            Position::AML => "AML"@,
            Position::AMC => "AMC"@,
            Position::STC => "STC"@,
        }
    }

    /// The position with the given canonical code.
    pub fn from_code(s: &str) -> (r: Option<Position>)
        ensures
            match r {
                Some(p) => p.code() == s@,
                None => forall|p: Position| #[trigger] p.code() != s@,
            },
            forall|p: Position| #[trigger] p.code() == s@ ==> r == Some(p),
    {
        let r = if same_text(s, "GK") {
            Some(Position::GK)
        } else if same_text(s, "DR") {
            Some(Position::DR)
        } else if same_text(s, "DC") {
            Some(Position::DC)
        } else if same_text(s, "DL") {
            Some(Position::DL)
        } else if same_text(s, "WBR") {
            Some(Position::WBR)
        } else if same_text(s, "WBL") {
            Some(Position::WBL)
        } else if same_text(s, "DMC") {
            Some(Position::DMC)
        } else if same_text(s, "MC") {
            Some(Position::MC)
        } else if same_text(s, "MR") {
            Some(Position::MR)
        } else if same_text(s, "ML") {
            Some(Position::ML)
        } else if same_text(s, "AMR") {
            Some(Position::AMR)
        } else if same_text(s, "AML") {
            Some(Position::AML)
        } else if same_text(s, "AMC") {
            Some(Position::AMC)
        } else if same_text(s, "STC") {
            Some(Position::STC)
        } else {
            None
        };
        proof {
            assert forall|p: Position| #[trigger] p.code() == s@ implies r == Some(p) by {
                if let Some(q) = r {
                    lemma_codes_distinct(p, q);
                }
            }
        }
        r
    }

    pub fn as_str(&self) -> (r: &'static str)
        ensures
            r@ == self.code(),
    {
        match self {
            Position::GK => "GK",
            Position::DR => "DR",
            Position::DC => "DC",
            Position::DL => "DL",
            Position::WBR => "WBR",
            Position::WBL => "WBL",
            Position::DMC => "DMC",
            Position::MC => "MC",
            Position::MR => "MR",
            Position::ML => "ML",
            Position::AMR => "AMR",
            Position::AML => "AML",
            Position::AMC => "AMC",
            Position::STC => "STC",
        }
    }
}


#[verifier::external_type_specification]
#[verifier::external_body]
pub struct ExNaiveDate(chrono::NaiveDate);

/// Whether an attribute value is unrated or on the scale from 1 to 20.
pub open spec fn in_scale(v: Option<i32>) -> bool {
    match v {
        Some(x) => 1 <= x <= 20,
        None => true,
    }
}

/// A player with the attributes that roles are scored against; an attribute
/// that is `None` is unrated, which is not the same as a low rating.
#[derive(Debug, Clone)]
pub struct Player {
    pub id: Option<i64>,
    pub name: String,
    pub age: i32,
    pub nationality: Option<String>,
    pub position: Position,

    // Technical attributes, each from 1 to 20 when rated
    pub corners: Option<i32>,
    pub crossing: Option<i32>,
    pub dribbling: Option<i32>,
    pub finishing: Option<i32>,
    pub first_touch: Option<i32>,
    pub free_kick_taking: Option<i32>,
    pub heading: Option<i32>,
    pub long_shots: Option<i32>,
    pub long_throws: Option<i32>,
    pub marking: Option<i32>,
    pub passing: Option<i32>,
    pub penalty_taking: Option<i32>,
    pub tackling: Option<i32>,
    pub technique: Option<i32>,

    // Mental attributes, each from 1 to 20 when rated
    pub aggression: Option<i32>,
    pub anticipation: Option<i32>,
    pub bravery: Option<i32>,
    pub composure: Option<i32>,
    pub concentration: Option<i32>,
    pub decisions: Option<i32>,
    pub determination: Option<i32>,
    pub flair: Option<i32>,
    pub leadership: Option<i32>,
    pub off_the_ball: Option<i32>,
    pub positioning: Option<i32>,
    pub teamwork: Option<i32>,
    pub vision: Option<i32>,
    pub work_rate: Option<i32>,

    // Physical attributes, each from 1 to 20 when rated
    pub acceleration: Option<i32>,
    pub agility: Option<i32>,
    pub balance: Option<i32>,
    pub jumping_reach: Option<i32>,
    pub natural_fitness: Option<i32>,
    pub pace: Option<i32>,
    pub stamina: Option<i32>,
    pub strength: Option<i32>,

    // Goalkeeping attributes, each from 1 to 20 when rated
    pub aerial_reach: Option<i32>,
    pub command_of_area: Option<i32>,
    pub communication: Option<i32>,
    pub eccentricity: Option<i32>,
    pub handling: Option<i32>,
    pub kicking: Option<i32>,
    pub one_on_ones: Option<i32>,
    pub reflexes: Option<i32>,
    pub rushing_out: Option<i32>,
    pub punching: Option<i32>,
    pub throwing: Option<i32>,

    // Contract and market data
    pub value: Option<i64>,
    pub wage: Option<i64>,
    pub contract_expiry: Option<chrono::NaiveDate>,
}

impl Player {
    /// Every rated attribute is on the scale from 1 to 20.
    pub open spec fn wf(&self) -> bool {
        &&& in_scale(self.corners)
        &&& in_scale(self.crossing)
        &&& in_scale(self.dribbling)
        &&& in_scale(self.finishing)
        &&& in_scale(self.first_touch)
        &&& in_scale(self.free_kick_taking)
        &&& in_scale(self.heading)
        &&& in_scale(self.long_shots)
        &&& in_scale(self.long_throws)
        &&& in_scale(self.marking)
        &&& in_scale(self.passing)
        &&& in_scale(self.penalty_taking)
        &&& in_scale(self.tackling)
        &&& in_scale(self.technique)
        &&& in_scale(self.aggression)
        &&& in_scale(self.anticipation)
        &&& in_scale(self.bravery)
        &&& in_scale(self.composure)
        &&& in_scale(self.concentration)
        &&& in_scale(self.decisions)
        &&& in_scale(self.determination)
        &&& in_scale(self.flair)
        &&& in_scale(self.leadership)
        &&& in_scale(self.off_the_ball)
        &&& in_scale(self.positioning)
        &&& in_scale(self.teamwork)
        &&& in_scale(self.vision)
        &&& in_scale(self.work_rate)
        &&& in_scale(self.acceleration)
        &&& in_scale(self.agility)
        &&& in_scale(self.balance)
        &&& in_scale(self.jumping_reach)
        &&& in_scale(self.natural_fitness)
        &&& in_scale(self.pace)
        &&& in_scale(self.stamina)
        &&& in_scale(self.strength)
        &&& in_scale(self.aerial_reach)
        &&& in_scale(self.command_of_area)
        &&& in_scale(self.communication)
        &&& in_scale(self.eccentricity)
        &&& in_scale(self.handling)
        &&& in_scale(self.kicking)
        &&& in_scale(self.one_on_ones)
        &&& in_scale(self.reflexes)
        &&& in_scale(self.rushing_out)
        &&& in_scale(self.punching)
        &&& in_scale(self.throwing)
    }

    /// No attribute is rated.
    pub open spec fn unrated(&self) -> bool {
        &&& self.corners is None
        &&& self.crossing is None
        &&& self.dribbling is None
        &&& self.finishing is None
        &&& self.first_touch is None
        &&& self.free_kick_taking is None
        &&& self.heading is None
        &&& self.long_shots is None
        &&& self.long_throws is None
        &&& self.marking is None
        &&& self.passing is None
        &&& self.penalty_taking is None
        &&& self.tackling is None
        &&& self.technique is None
        &&& self.aggression is None
        &&& self.anticipation is None
        &&& self.bravery is None
        &&& self.composure is None
        &&& self.concentration is None
        &&& self.decisions is None
        &&& self.determination is None
        &&& self.flair is None
        &&& self.leadership is None
        &&& self.off_the_ball is None
        &&& self.positioning is None
        &&& self.teamwork is None
        &&& self.vision is None
        &&& self.work_rate is None
        &&& self.acceleration is None
        &&& self.agility is None
        &&& self.balance is None
        &&& self.jumping_reach is None
        &&& self.natural_fitness is None
        &&& self.pace is None
        &&& self.stamina is None
        &&& self.strength is None
        &&& self.aerial_reach is None
        &&& self.command_of_area is None
        &&& self.communication is None
        &&& self.eccentricity is None
        &&& self.handling is None
        &&& self.kicking is None
        &&& self.one_on_ones is None
        &&& self.reflexes is None
        &&& self.rushing_out is None
        &&& self.punching is None
        &&& self.throwing is None
    }

    /// The player's rating of the attribute with the given name; `None` when the
    /// attribute is unrated or no attribute has that name.
    pub open spec fn rating(&self, name: Seq<char>) -> Option<i32> {
        if name == "corners"@ {
            self.corners
        } else if name == "crossing"@ {
            self.crossing
        } else if name == "dribbling"@ {
            self.dribbling
        } else if name == "finishing"@ {
            self.finishing
        } else if name == "first_touch"@ {
            self.first_touch
        } else if name == "free_kick_taking"@ {
            self.free_kick_taking
        } else if name == "heading"@ {
            self.heading
        } else if name == "long_shots"@ {
            self.long_shots
        } else if name == "long_throws"@ {
            self.long_throws
        } else if name == "marking"@ {
            self.marking
        } else if name == "passing"@ {
            self.passing
        } else if name == "penalty_taking"@ {
            self.penalty_taking
        } else if name == "tackling"@ {
            self.tackling
        } else if name == "technique"@ {
            self.technique
        } else if name == "aggression"@ {
            self.aggression
        } else if name == "anticipation"@ {
            self.anticipation
        } else if name == "bravery"@ {
            self.bravery
        } else if name == "composure"@ {
            self.composure
        } else if name == "concentration"@ {
            self.concentration
        } else if name == "decisions"@ {
            self.decisions
        } else if name == "determination"@ {
            self.determination
        } else if name == "flair"@ {
            self.flair
        } else if name == "leadership"@ {
            self.leadership
        } else if name == "off_the_ball"@ {
            self.off_the_ball
        } else if name == "positioning"@ {
            self.positioning
        } else if name == "teamwork"@ {
            self.teamwork
        } else if name == "vision"@ {
            self.vision
        } else if name == "work_rate"@ {
            self.work_rate
        } else if name == "acceleration"@ {
            self.acceleration
        } else if name == "agility"@ {
            self.agility
        } else if name == "balance"@ {
            self.balance
        } else if name == "jumping_reach"@ {
            self.jumping_reach
        } else if name == "natural_fitness"@ {
            self.natural_fitness
        } else if name == "pace"@ {
            self.pace
        } else if name == "stamina"@ {
            self.stamina
        } else if name == "strength"@ {
            self.strength
        } else if name == "aerial_reach"@ {
            self.aerial_reach
        } else if name == "command_of_area"@ {
            self.command_of_area
        } else if name == "communication"@ {
            self.communication
        } else if name == "eccentricity"@ {
            self.eccentricity
        } else if name == "handling"@ {
            self.handling
        } else if name == "kicking"@ {
            self.kicking
        } else if name == "one_on_ones"@ {
            self.one_on_ones
        } else if name == "reflexes"@ {
            self.reflexes
        } else if name == "rushing_out"@ {
            self.rushing_out
        } else if name == "punching"@ {
            self.punching
        } else if name == "throwing"@ {
            self.throwing
        } else {
            None
        }
    }

    /// A player with the given name, age and position, nothing else known.
    pub fn new(name: String, age: i32, position: Position) -> (r: Player)
        ensures
            r.id is None,
            r.name == name,
            r.age == age,
            r.nationality is None,
            r.position == position,
            r.unrated(),
            r.wf(),
            r.value is None,
            r.wage is None,
            r.contract_expiry is None,
    {
        Player {
            id: None,
            name,
            age,
            nationality: None,
            position,
            corners: None,
            crossing: None,
            dribbling: None,
            finishing: None,
            first_touch: None,
            free_kick_taking: None,
            heading: None,
            long_shots: None,
            long_throws: None,
            marking: None,
            passing: None,
            penalty_taking: None,
            tackling: None,
            technique: None,
            aggression: None,
            anticipation: None,
            bravery: None,
            composure: None,
            concentration: None,
            decisions: None,
            determination: None,
            flair: None,
            leadership: None,
            off_the_ball: None,
            positioning: None,
            teamwork: None,
            vision: None,
            work_rate: None,
            acceleration: None,
            agility: None,
            balance: None,
            jumping_reach: None,
            natural_fitness: None,
            pace: None,
            stamina: None,
            strength: None,
            aerial_reach: None,
            command_of_area: None,
            communication: None,
            eccentricity: None,
            handling: None,
            kicking: None,
            one_on_ones: None,
            reflexes: None,
            rushing_out: None,
            punching: None,
            throwing: None,
            value: None,
            wage: None,
            contract_expiry: None,
        }
    }

    pub fn is_goalkeeper(&self) -> (r: bool)
        ensures
            r == (self.position == Position::GK),
    {
        matches!(self.position, Position::GK)
    }

    /// Looks an attribute up by its field name.
    pub fn attribute(&self, name: &str) -> (r: Option<i32>)
        ensures
            r == self.rating(name@),
    {
        if same_text(name, "corners") {
            self.corners
        } else if same_text(name, "crossing") {
            self.crossing
        } else if same_text(name, "dribbling") {
            self.dribbling
        } else if same_text(name, "finishing") {
            self.finishing
        } else if same_text(name, "first_touch") {
            self.first_touch
        } else if same_text(name, "free_kick_taking") {
            self.free_kick_taking
        } else if same_text(name, "heading") {
            self.heading
        } else if same_text(name, "long_shots") {
            self.long_shots
        } else if same_text(name, "long_throws") {
            self.long_throws
        } else if same_text(name, "marking") {
            self.marking
        } else if same_text(name, "passing") {
            self.passing
        } else if same_text(name, "penalty_taking") {
            self.penalty_taking
        } else if same_text(name, "tackling") {
            self.tackling
        } else if same_text(name, "technique") {
            self.technique
        } else if same_text(name, "aggression") {
            self.aggression
        } else if same_text(name, "anticipation") {
            self.anticipation
        } else if same_text(name, "bravery") {
            self.bravery
        } else if same_text(name, "composure") {
            self.composure
        } else if same_text(name, "concentration") {
            self.concentration
        } else if same_text(name, "decisions") {
            self.decisions
        } else if same_text(name, "determination") {
            self.determination
        } else if same_text(name, "flair") {
            self.flair
        } else if same_text(name, "leadership") {
            self.leadership
        } else if same_text(name, "off_the_ball") {
            self.off_the_ball
        } else if same_text(name, "positioning") {
            self.positioning
        } else if same_text(name, "teamwork") {
            self.teamwork
        } else if same_text(name, "vision") {
            self.vision
        } else if same_text(name, "work_rate") {
            self.work_rate
        } else if same_text(name, "acceleration") {
            self.acceleration
        } else if same_text(name, "agility") {
            self.agility
        } else if same_text(name, "balance") {
            self.balance
        } else if same_text(name, "jumping_reach") {
            self.jumping_reach
        } else if same_text(name, "natural_fitness") {
            self.natural_fitness
        } else if same_text(name, "pace") {
            self.pace
        } else if same_text(name, "stamina") {
            self.stamina
        } else if same_text(name, "strength") {
            self.strength
        } else if same_text(name, "aerial_reach") {
            self.aerial_reach
        } else if same_text(name, "command_of_area") {
            self.command_of_area
        } else if same_text(name, "communication") {
            self.communication
        } else if same_text(name, "eccentricity") {
            self.eccentricity
        } else if same_text(name, "handling") {
            self.handling
        } else if same_text(name, "kicking") {
            self.kicking
        } else if same_text(name, "one_on_ones") {
            self.one_on_ones
        } else if same_text(name, "reflexes") {
            self.reflexes
        } else if same_text(name, "rushing_out") {
            self.rushing_out
        } else if same_text(name, "punching") {
            self.punching
        } else if same_text(name, "throwing") {
            self.throwing
        } else {
            None
        }
    }
}


/// Distinct positions have distinct codes.
pub proof fn lemma_codes_distinct(p: Position, q: Position)
    ensures
        p.code() == q.code() ==> p == q,
{
    reveal_strlit("GK");
    reveal_strlit("DR");
    reveal_strlit("DC");
    reveal_strlit("DL");
    reveal_strlit("WBR");
    reveal_strlit("WBL");
    reveal_strlit("DMC");
    reveal_strlit("MC");
    reveal_strlit("MR");
    reveal_strlit("ML");
    reveal_strlit("AMR");
    reveal_strlit("AML");
    reveal_strlit("AMC");
    reveal_strlit("STC");
    if p.code() == q.code() {
        assert(p.code().len() == q.code().len());
        assert(p.code()[0] == q.code()[0]);
        if p.code().len() > 1 {
            assert(p.code()[1] == q.code()[1]);
        }
        if p.code().len() > 2 {
            assert(p.code()[2] == q.code()[2]);
        }
    }
}

} // verus!
