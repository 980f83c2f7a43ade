use vstd::prelude::*;
use crate::player::Position;
use crate::player::Position::{GK, DR, DC, DL, WBR, WBL, DMC, MC, MR, ML, AMR, AML, AMC, STC};
use crate::role::Duty;
use crate::role::Duty::{Defend, Support, Attack, Automatic};

verus! {

/// A role archetype: a named playing style, grouped by zone of the pitch.
#[derive(Debug, Clone, Copy, PartialEq, Eq, Hash, Structural)]
pub enum RoleType {
    // goalkeepers
    Goalkeeper,
    SweeperKeeper,
    // defenders
    FullBack,
    WingBack,
    CompleteWingBack,
    InvertedWingBack,
    CentralDefender,
    BallPlayingDefender,
    Libero,
    NoChallengeDefender,
    // defensive midfielders
    Anchor,
    BallWinningMidfielder,
    DeepLyingPlaymaker,
    HalfBack,
    Regista,
    SegundoVolante,
    // central midfielders
    BoxToBoxMidfielder,
    CentralMidfielder,
    Carrilero,
    DeepLyingMidfielderSupport,
    Mezzala,
    RoamingPlaymaker,
    // wide midfielders
    Winger,
    InvertedWinger,
    WideMidfielder,
    WidePlaymaker,
    DefensiveWinger,
    // attacking midfielders
    AdvancedPlaymaker,
    AttackingMidfielder,
    Enganche,
    ShadowStriker,
    Trequartista,
    // forwards
    AdvancedForward,
    CompleteForward,
    DeepLyingForward,
    FalseNine,
    InsideForward,
    Poacher,
    PressingForward,
    Raumdeuter,
    TargetMan,
    TrequartistaForward,
}

/// The number of role archetypes.
pub const ROLE_TYPE_COUNT: usize = 42;

impl RoleType {
    /// Place of the archetype in declaration order.
    pub open spec fn ord(self) -> int {
        match self {
            RoleType::Goalkeeper => 0,
            RoleType::SweeperKeeper => 1,
            RoleType::FullBack => 2,
            RoleType::WingBack => 3,
            RoleType::CompleteWingBack => 4,
            RoleType::InvertedWingBack => 5,
            RoleType::CentralDefender => 6,
            RoleType::BallPlayingDefender => 7,
            RoleType::Libero => 8,
            RoleType::NoChallengeDefender => 9,
            RoleType::Anchor => 10,
            RoleType::BallWinningMidfielder => 11,
            RoleType::DeepLyingPlaymaker => 12,
            RoleType::HalfBack => 13,
            RoleType::Regista => 14,
            RoleType::SegundoVolante => 15,
            RoleType::BoxToBoxMidfielder => 16,
            RoleType::CentralMidfielder => 17,
            RoleType::Carrilero => 18,
            RoleType::DeepLyingMidfielderSupport => 19,
            RoleType::Mezzala => 20,
            RoleType::RoamingPlaymaker => 21,
            RoleType::Winger => 22,
            RoleType::InvertedWinger => 23,
            RoleType::WideMidfielder => 24,
            RoleType::WidePlaymaker => 25,
            RoleType::DefensiveWinger => 26,
            RoleType::AdvancedPlaymaker => 27,
            RoleType::AttackingMidfielder => 28,
            RoleType::Enganche => 29,
            RoleType::ShadowStriker => 30,
            RoleType::Trequartista => 31,
            RoleType::AdvancedForward => 32,
            RoleType::CompleteForward => 33,
            RoleType::DeepLyingForward => 34,
            RoleType::FalseNine => 35,
            RoleType::InsideForward => 36,
            RoleType::Poacher => 37,
            RoleType::PressingForward => 38,
            RoleType::Raumdeuter => 39,
            RoleType::TargetMan => 40,
            RoleType::TrequartistaForward => 41,
        }
    }

    /// The human-readable name of the archetype.
    pub open spec fn display_name(self) -> Seq<char> {
        match self {
            RoleType::Goalkeeper => "Goalkeeper"@,
            RoleType::SweeperKeeper => "Sweeper Keeper"@,
            RoleType::FullBack => "Full Back"@,
            RoleType::WingBack => "Wing Back"@,
            RoleType::CompleteWingBack => "Complete Wing Back"@,
            RoleType::InvertedWingBack => "Inverted Wing Back"@,
            RoleType::CentralDefender => "Central Defender"@,
            RoleType::BallPlayingDefender => "Ball-Playing Defender"@,
            RoleType::Libero => "Libero"@,
            RoleType::NoChallengeDefender => "No-Challenge Defender"@,
            RoleType::Anchor => "Anchor"@,
            RoleType::BallWinningMidfielder => "Ball-Winning Midfielder"@,
            RoleType::DeepLyingPlaymaker => "Deep-Lying Playmaker"@,
            RoleType::HalfBack => "Half Back"@,
            RoleType::Regista => "Regista"@,
            RoleType::SegundoVolante => "Segundo Volante"@,
            RoleType::BoxToBoxMidfielder => "Box-to-Box Midfielder"@,
            RoleType::CentralMidfielder => "Central Midfielder"@,
            RoleType::Carrilero => "Carrilero"@,
            RoleType::DeepLyingMidfielderSupport => "Deep-Lying Midfielder"@,
            RoleType::Mezzala => "Mezzala"@,
            RoleType::RoamingPlaymaker => "Roaming Playmaker"@,
            RoleType::Winger => "Winger"@,
            RoleType::InvertedWinger => "Inverted Winger"@,
            RoleType::WideMidfielder => "Wide Midfielder"@,
            RoleType::WidePlaymaker => "Wide Playmaker"@,
            RoleType::DefensiveWinger => "Defensive Winger"@,
            RoleType::AdvancedPlaymaker => "Advanced Playmaker"@,
            RoleType::AttackingMidfielder => "Attacking Midfielder"@,
            RoleType::Enganche => "Enganche"@,
            RoleType::ShadowStriker => "Shadow Striker"@,
            RoleType::Trequartista => "Trequartista"@,
            RoleType::AdvancedForward => "Advanced Forward"@,
            RoleType::CompleteForward => "Complete Forward"@,
            RoleType::DeepLyingForward => "Deep-Lying Forward"@,
            RoleType::FalseNine => "False Nine"@,
            RoleType::InsideForward => "Inside Forward"@,
            RoleType::Poacher => "Poacher"@,
            RoleType::PressingForward => "Pressing Forward"@,
            RoleType::Raumdeuter => "Raumdeuter"@,
            RoleType::TargetMan => "Target Man"@,
            RoleType::TrequartistaForward => "Trequartista Forward"@,
        }
    }
}

/// Defend, Support or Attack: every duty but Automatic.
pub open spec fn outfield_duty(d: Duty) -> bool {
    d == Defend || d == Support || d == Attack
}

pub open spec fn defend_or_support(d: Duty) -> bool {
    d == Defend || d == Support
}

pub open spec fn support_or_attack(d: Duty) -> bool {
    d == Support || d == Attack
}

/// The legality relation: which duties each archetype may take at each position.
pub open spec fn is_legal(p: Position, r: RoleType, d: Duty) -> bool {
    match p {
        GK => (r == RoleType::Goalkeeper || r == RoleType::SweeperKeeper) && d == Automatic,
        DR | DL => match r {
            RoleType::FullBack | RoleType::WingBack | RoleType::InvertedWingBack => outfield_duty(d),
            RoleType::CompleteWingBack => support_or_attack(d),
            RoleType::NoChallengeDefender => d == Defend,
            _ => false,
        },
        DC => match r {
            RoleType::CentralDefender | RoleType::BallPlayingDefender | RoleType::Libero =>
                defend_or_support(d),
            RoleType::NoChallengeDefender => d == Defend,
            _ => false,
        },
        WBR | WBL => match r {
            RoleType::WingBack | RoleType::InvertedWingBack => outfield_duty(d),
            RoleType::CompleteWingBack => support_or_attack(d),
            _ => false,
        },
        DMC => match r {
            RoleType::Anchor | RoleType::HalfBack => d == Defend,
            RoleType::BallWinningMidfielder | RoleType::DeepLyingPlaymaker => defend_or_support(d),
            RoleType::Regista => d == Support,
            RoleType::SegundoVolante => support_or_attack(d),
            _ => false,
        },
        MC => match r {
            RoleType::BoxToBoxMidfielder | RoleType::Carrilero | RoleType::DeepLyingMidfielderSupport
            | RoleType::RoamingPlaymaker => d == Support,
            RoleType::CentralMidfielder => outfield_duty(d),
            RoleType::Mezzala | RoleType::AdvancedPlaymaker => support_or_attack(d),
            RoleType::BallWinningMidfielder => defend_or_support(d),
            _ => false,
        },
        MR | ML => match r {
            RoleType::Winger | RoleType::InvertedWinger | RoleType::WidePlaymaker => support_or_attack(d),
            RoleType::WideMidfielder => outfield_duty(d),
            RoleType::DefensiveWinger => defend_or_support(d),
            _ => false,
        },
        AMR | AML => match r {
            RoleType::Winger | RoleType::InvertedWinger | RoleType::WidePlaymaker
            | RoleType::InsideForward => support_or_attack(d),
            RoleType::Raumdeuter => d == Attack,
            _ => false,
        },
        AMC => match r {
            RoleType::AdvancedPlaymaker | RoleType::AttackingMidfielder => support_or_attack(d),
            RoleType::Enganche | RoleType::Trequartista => d == Support,
            RoleType::ShadowStriker => d == Attack,
            _ => false,
        },
        STC => match r {
            RoleType::AdvancedForward | RoleType::Poacher => d == Attack,
            RoleType::CompleteForward | RoleType::DeepLyingForward | RoleType::TargetMan =>
                support_or_attack(d),
            RoleType::FalseNine | RoleType::TrequartistaForward => d == Support,
            RoleType::PressingForward => outfield_duty(d),
            _ => false,
        },
    }
}

/// Why a tactical role could not be built.
#[derive(Debug, Clone, Copy, PartialEq, Eq, Structural)]
pub enum ValidationError {
    /// The position, archetype and duty are not in the legality relation.
    IllegalCombination { position: Position, role: RoleType, duty: Duty },
}

/// A position, role archetype and duty that together are legal.
#[derive(Debug, Clone, Copy, PartialEq, Eq, Hash, Structural)]
pub struct TacticalRole {
    pub position: Position,
    pub role: RoleType,
    pub duty: Duty,
}

impl TacticalRole {
    /// The combination is in the legality relation.
    pub open spec fn wf(self) -> bool {
        is_legal(self.position, self.role, self.duty)
    }

    /// Builds the tactical role; an illegal combination is an error, never coerced.
    pub fn new(position: Position, role: RoleType, duty: Duty) -> (r: Result<TacticalRole, ValidationError>)
        ensures
            is_legal(position, role, duty) ==> r == Ok::<TacticalRole, ValidationError>(
                TacticalRole { position, role, duty },
            ),
            !is_legal(position, role, duty) ==> r == Err::<TacticalRole, ValidationError>(
                ValidationError::IllegalCombination { position, role, duty },
            ),
    {
        if Self::is_valid_combination(position, role, duty) {
            Ok(TacticalRole { position, role, duty })
        } else {
            Err(ValidationError::IllegalCombination { position, role, duty })
        }
    }

    /// Decides the legality relation.
    pub fn is_valid_combination(position: Position, role: RoleType, duty: Duty) -> (r: bool)
        ensures
            r == is_legal(position, role, duty),
    {
        match (position, role, duty) {
            // goalkeepers take Automatic duty only
            (GK, RoleType::Goalkeeper, Automatic) => true,
            (GK, RoleType::SweeperKeeper, Automatic) => true,
            (GK, _, _) => false,

            // full backs
            (DR | DL, RoleType::FullBack, Defend | Support | Attack) => true,
            (DR | DL, RoleType::WingBack, Defend | Support | Attack) => true,
            (DR | DL, RoleType::CompleteWingBack, Support | Attack) => true,
            (DR | DL, RoleType::InvertedWingBack, Defend | Support | Attack) => true,
            (DR | DL, RoleType::NoChallengeDefender, Defend) => true,

            // centre backs
            (DC, RoleType::CentralDefender, Defend | Support) => true,
            (DC, RoleType::BallPlayingDefender, Defend | Support) => true,
            (DC, RoleType::Libero, Defend | Support) => true,
            (DC, RoleType::NoChallengeDefender, Defend) => true,

            // wing backs
            (WBR | WBL, RoleType::WingBack, Defend | Support | Attack) => true,
            (WBR | WBL, RoleType::CompleteWingBack, Support | Attack) => true,
            (WBR | WBL, RoleType::InvertedWingBack, Defend | Support | Attack) => true,

            // defensive midfield
            (DMC, RoleType::Anchor, Defend) => true,
            (DMC, RoleType::BallWinningMidfielder, Defend | Support) => true,
            (DMC, RoleType::DeepLyingPlaymaker, Defend | Support) => true,
            (DMC, RoleType::HalfBack, Defend) => true,
            (DMC, RoleType::Regista, Support) => true,
            (DMC, RoleType::SegundoVolante, Support | Attack) => true,

            // central midfield
            (MC, RoleType::BoxToBoxMidfielder, Support) => true,
            (MC, RoleType::CentralMidfielder, Defend | Support | Attack) => true,
            (MC, RoleType::Carrilero, Support) => true,
            (MC, RoleType::DeepLyingMidfielderSupport, Support) => true,
            (MC, RoleType::Mezzala, Support | Attack) => true,
            (MC, RoleType::RoamingPlaymaker, Support) => true,
            (MC, RoleType::BallWinningMidfielder, Defend | Support) => true,
            (MC, RoleType::AdvancedPlaymaker, Support | Attack) => true,

            // wide midfield
            (MR | ML, RoleType::Winger, Support | Attack) => true,
            (MR | ML, RoleType::InvertedWinger, Support | Attack) => true,
            (MR | ML, RoleType::WideMidfielder, Defend | Support | Attack) => true,
            (MR | ML, RoleType::WidePlaymaker, Support | Attack) => true,
            (MR | ML, RoleType::DefensiveWinger, Defend | Support) => true,

            // attacking midfield, wide
            (AMR | AML, RoleType::Winger, Support | Attack) => true,
            (AMR | AML, RoleType::InvertedWinger, Support | Attack) => true,
            (AMR | AML, RoleType::WidePlaymaker, Support | Attack) => true,
            (AMR | AML, RoleType::InsideForward, Support | Attack) => true,
            (AMR | AML, RoleType::Raumdeuter, Attack) => true,

            // attacking midfield, centre
            (AMC, RoleType::AdvancedPlaymaker, Support | Attack) => true,
            (AMC, RoleType::AttackingMidfielder, Support | Attack) => true,
            (AMC, RoleType::Enganche, Support) => true,
            (AMC, RoleType::ShadowStriker, Attack) => true,
            (AMC, RoleType::Trequartista, Support) => true,

            // strikers
            (STC, RoleType::AdvancedForward, Attack) => true,
            (STC, RoleType::CompleteForward, Support | Attack) => true,
            (STC, RoleType::DeepLyingForward, Support | Attack) => true,
            (STC, RoleType::FalseNine, Support) => true,
            (STC, RoleType::Poacher, Attack) => true,
            (STC, RoleType::PressingForward, Defend | Support | Attack) => true,
            (STC, RoleType::TargetMan, Support | Attack) => true,
            (STC, RoleType::TrequartistaForward, Support) => true,

            _ => false,
        }
    }

    /// Every legal tactical role at the position, each once, in the order of
    /// the archetypes and then of the duties.
    pub fn get_all_for_position(position: Position) -> (r: Vec<TacticalRole>)
        ensures
            forall|i: int| 0 <= i < r@.len() ==> (#[trigger] r@[i]).position == position && r@[i].wf(),
            forall|role: RoleType, duty: Duty| #[trigger] is_legal(position, role, duty)
                ==> r@.contains(TacticalRole { position, role, duty }),
            r@.no_duplicates(),
            forall|i: int, j: int| 0 <= i < j < r@.len() ==> #[trigger] listed_before(r@[i], #[trigger] r@[j]),
    {
        let mut roles: Vec<TacticalRole> = Vec::new();
        let role_types = Self::all_role_types();
        let duties = Self::all_duties();
        let mut i: usize = 0;
        while i < role_types.len()
            invariant
                role_types@.len() == ROLE_TYPE_COUNT,
                forall|k: int| 0 <= k < ROLE_TYPE_COUNT ==> (#[trigger] role_types@[k]).ord() == k,
                duties@.len() == 4,
                forall|k: int| 0 <= k < 4 ==> (#[trigger] duties@[k]).ord() == k,
                0 <= i <= ROLE_TYPE_COUNT,
                forall|k: int| 0 <= k < roles@.len() ==> {
                    let t = #[trigger] roles@[k];
                    t.position == position && t.wf() && t.role.ord() < i
                },
                forall|role: RoleType, duty: Duty|
                    #[trigger] is_legal(position, role, duty) && role.ord() < i
                    ==> roles@.contains(TacticalRole { position, role, duty }),
                roles@.no_duplicates(),
                forall|a: int, b: int| 0 <= a < b < roles@.len() ==> #[trigger] listed_before(roles@[a], #[trigger] roles@[b]),
            decreases ROLE_TYPE_COUNT - i,
        {
            let role = role_types[i];
            let mut j: usize = 0;
            while j < duties.len()
                invariant
                    role_types@.len() == ROLE_TYPE_COUNT,
                    forall|k: int| 0 <= k < ROLE_TYPE_COUNT ==> (#[trigger] role_types@[k]).ord() == k,
                    duties@.len() == 4,
                    forall|k: int| 0 <= k < 4 ==> (#[trigger] duties@[k]).ord() == k,
                    0 <= i < ROLE_TYPE_COUNT,
                    role == role_types@[i as int],
                    0 <= j <= 4,
                    forall|k: int| 0 <= k < roles@.len() ==> {
                        let t = #[trigger] roles@[k];
                        t.position == position && t.wf() && (t.role.ord() < i || (t.role == role
                            && t.duty.ord() < j))
                    },
                    forall|role2: RoleType, duty: Duty|
                        #[trigger] is_legal(position, role2, duty) && (role2.ord() < i || (role2 == role
                            && duty.ord() < j))
                        ==> roles@.contains(TacticalRole { position, role: role2, duty }),
                    roles@.no_duplicates(),
                    forall|a: int, b: int| 0 <= a < b < roles@.len() ==> #[trigger] listed_before(roles@[a], #[trigger] roles@[b]),
                decreases 4 - j,
            {
                let duty = duties[j];
                let ghost before = roles@;
                if Self::is_valid_combination(position, role, duty) {
                    let t = TacticalRole { position, role, duty };
                    proof {
                        assert(!roles@.contains(t)) by {
                            if roles@.contains(t) {
                                let k = choose|k: int| 0 <= k < roles@.len() && roles@[k] == t;
                                assert(roles@[k] == t);
                            }
                        }
                    }
                    roles.push(t);
                    proof {
                        assert(roles@.last() == t);
                        assert forall|x: TacticalRole| before.contains(x) implies roles@.contains(x) by {
                            let k = choose|k: int| 0 <= k < before.len() && before[k] == x;
                            assert(roles@[k] == x);
                        }
                    }
                }
                proof {
                    assert forall|role2: RoleType, duty2: Duty|
                        #[trigger] is_legal(position, role2, duty2) && (role2.ord() < i || (role2 == role
                            && duty2.ord() < j + 1))
                        implies roles@.contains(TacticalRole { position, role: role2, duty: duty2 }) by {
                        if role2 == role && duty2.ord() == j {
                            assert(duty2 == duty);
                            assert(roles@.contains(TacticalRole { position, role, duty }));
                        }
                    }
                }
                j = j + 1;
            }
            proof {
                assert forall|role2: RoleType, duty: Duty|
                    #[trigger] is_legal(position, role2, duty) && role2.ord() < i + 1
                    implies roles@.contains(TacticalRole { position, role: role2, duty }) by {
                    if role2.ord() == i {
                        lemma_role_ord_injective(role2, role);
                    }
                }
            }
            i = i + 1;
        }
        proof {
            assert forall|role: RoleType, duty: Duty| #[trigger] is_legal(position, role, duty)
                implies roles@.contains(TacticalRole { position, role, duty }) by {
                lemma_role_ord_range(role);
            }
        }
        roles
    }

    /// Every role archetype, in declaration order.
    pub fn all_role_types() -> (r: Vec<RoleType>)
        ensures
            r@.len() == ROLE_TYPE_COUNT,
            forall|k: int| 0 <= k < ROLE_TYPE_COUNT ==> (#[trigger] r@[k]).ord() == k,
    {
        vec![
            RoleType::Goalkeeper,
            RoleType::SweeperKeeper,
            RoleType::FullBack,
            RoleType::WingBack,
            RoleType::CompleteWingBack,
            RoleType::InvertedWingBack,
            RoleType::CentralDefender,
            RoleType::BallPlayingDefender,
            RoleType::Libero,
            RoleType::NoChallengeDefender,
            RoleType::Anchor,
            RoleType::BallWinningMidfielder,
            RoleType::DeepLyingPlaymaker,
            RoleType::HalfBack,
            RoleType::Regista,
            RoleType::SegundoVolante,
            RoleType::BoxToBoxMidfielder,
            RoleType::CentralMidfielder,
            RoleType::Carrilero,
            RoleType::DeepLyingMidfielderSupport,
            RoleType::Mezzala,
            RoleType::RoamingPlaymaker,
            RoleType::Winger,
            RoleType::InvertedWinger,
            RoleType::WideMidfielder,
            RoleType::WidePlaymaker,
            RoleType::DefensiveWinger,
            RoleType::AdvancedPlaymaker,
            RoleType::AttackingMidfielder,
            RoleType::Enganche,
            RoleType::ShadowStriker,
            RoleType::Trequartista,
            RoleType::AdvancedForward,
            RoleType::CompleteForward,
            RoleType::DeepLyingForward,
            RoleType::FalseNine,
            RoleType::InsideForward,
            RoleType::Poacher,
            RoleType::PressingForward,
            RoleType::Raumdeuter,
            RoleType::TargetMan,
            RoleType::TrequartistaForward,
        ]
    }

    /// Every duty, in the order Defend, Support, Attack, Automatic.
    pub fn all_duties() -> (r: Vec<Duty>)
        ensures
            r@.len() == 4,
            forall|k: int| 0 <= k < 4 ==> (#[trigger] r@[k]).ord() == k,
    {
        vec![Duty::Defend, Duty::Support, Duty::Attack, Duty::Automatic]
    }

    /// The display name of the role's archetype.
    pub fn role_name(&self) -> (r: &'static str)
        ensures
            r@ == self.role.display_name(),
    {
        match self.role {
            RoleType::Goalkeeper => "Goalkeeper",
            RoleType::SweeperKeeper => "Sweeper Keeper",
            RoleType::FullBack => "Full Back",
            RoleType::WingBack => "Wing Back",
            RoleType::CompleteWingBack => "Complete Wing Back",
            RoleType::InvertedWingBack => "Inverted Wing Back",
            RoleType::CentralDefender => "Central Defender",
            RoleType::BallPlayingDefender => "Ball-Playing Defender",
            RoleType::Libero => "Libero",
            RoleType::NoChallengeDefender => "No-Challenge Defender",
            RoleType::Anchor => "Anchor",
            RoleType::BallWinningMidfielder => "Ball-Winning Midfielder",
            RoleType::DeepLyingPlaymaker => "Deep-Lying Playmaker",
            RoleType::HalfBack => "Half Back",
            RoleType::Regista => "Regista",
            RoleType::SegundoVolante => "Segundo Volante",
            RoleType::BoxToBoxMidfielder => "Box-to-Box Midfielder",
            RoleType::CentralMidfielder => "Central Midfielder",
            RoleType::Carrilero => "Carrilero",
            RoleType::DeepLyingMidfielderSupport => "Deep-Lying Midfielder",
            RoleType::Mezzala => "Mezzala",
            RoleType::RoamingPlaymaker => "Roaming Playmaker",
            RoleType::Winger => "Winger",
            RoleType::InvertedWinger => "Inverted Winger",
            RoleType::WideMidfielder => "Wide Midfielder",
            RoleType::WidePlaymaker => "Wide Playmaker",
            RoleType::DefensiveWinger => "Defensive Winger",
            RoleType::AdvancedPlaymaker => "Advanced Playmaker",
            RoleType::AttackingMidfielder => "Attacking Midfielder",
            RoleType::Enganche => "Enganche",
            RoleType::ShadowStriker => "Shadow Striker",
            RoleType::Trequartista => "Trequartista",
            RoleType::AdvancedForward => "Advanced Forward",
            RoleType::CompleteForward => "Complete Forward",
            RoleType::DeepLyingForward => "Deep-Lying Forward",
            RoleType::FalseNine => "False Nine",
            RoleType::InsideForward => "Inside Forward",
            RoleType::Poacher => "Poacher",
            RoleType::PressingForward => "Pressing Forward",
            RoleType::Raumdeuter => "Raumdeuter",
            RoleType::TargetMan => "Target Man",
            RoleType::TrequartistaForward => "Trequartista Forward",
        }
    }

    /// The name of the role's duty.
    pub fn duty_name(&self) -> (r: &'static str)
        ensures
            r@ == self.duty.name(),
    {
        match self.duty {
            Duty::Defend => "Defend",
            Duty::Support => "Support",
            Duty::Attack => "Attack",
            Duty::Automatic => "Automatic",
        }
    }
}

/// Whether `a` comes before `b` when tactical roles are listed by the place of
/// their archetype and then by the place of their duty.
pub open spec fn listed_before(a: TacticalRole, b: TacticalRole) -> bool {
    a.role.ord() < b.role.ord() || (a.role == b.role && a.duty.ord() < b.duty.ord())
}

/// The archetype at each place of the declaration order.
pub open spec fn role_type_at(k: int) -> RoleType {
    if k == 0 {
        RoleType::Goalkeeper
    } else if k == 1 {
        RoleType::SweeperKeeper
    } else if k == 2 {
        RoleType::FullBack
    } else if k == 3 {
        RoleType::WingBack
    } else if k == 4 {
        RoleType::CompleteWingBack
    } else if k == 5 {
        RoleType::InvertedWingBack
    } else if k == 6 {
        RoleType::CentralDefender
    } else if k == 7 {
        RoleType::BallPlayingDefender
    } else if k == 8 {
        RoleType::Libero
    } else if k == 9 {
        RoleType::NoChallengeDefender
    } else if k == 10 {
        RoleType::Anchor
    } else if k == 11 {
        RoleType::BallWinningMidfielder
    } else if k == 12 {
        RoleType::DeepLyingPlaymaker
    } else if k == 13 {
        RoleType::HalfBack
    } else if k == 14 {
        RoleType::Regista
    } else if k == 15 {
        RoleType::SegundoVolante
    } else if k == 16 {
        RoleType::BoxToBoxMidfielder
    } else if k == 17 {
        RoleType::CentralMidfielder
    } else if k == 18 {
        RoleType::Carrilero
    } else if k == 19 {
        RoleType::DeepLyingMidfielderSupport
    } else if k == 20 {
        RoleType::Mezzala
    } else if k == 21 {
        RoleType::RoamingPlaymaker
    } else if k == 22 {
        RoleType::Winger
    } else if k == 23 {
        RoleType::InvertedWinger
    } else if k == 24 {
        RoleType::WideMidfielder
    } else if k == 25 {
        RoleType::WidePlaymaker
    } else if k == 26 {
        RoleType::DefensiveWinger
    } else if k == 27 {
        RoleType::AdvancedPlaymaker
    } else if k == 28 {
        RoleType::AttackingMidfielder
    } else if k == 29 {
        RoleType::Enganche
    } else if k == 30 {
        RoleType::ShadowStriker
    } else if k == 31 {
        RoleType::Trequartista
    } else if k == 32 {
        RoleType::AdvancedForward
    } else if k == 33 {
        RoleType::CompleteForward
    } else if k == 34 {
        RoleType::DeepLyingForward
    } else if k == 35 {
        RoleType::FalseNine
    } else if k == 36 {
        RoleType::InsideForward
    } else if k == 37 {
        RoleType::Poacher
    } else if k == 38 {
        RoleType::PressingForward
    } else if k == 39 {
        RoleType::Raumdeuter
    } else if k == 40 {
        RoleType::TargetMan
    } else {
        RoleType::TrequartistaForward
    }
}

/// Every archetype has a place below the number of archetypes.
pub proof fn lemma_role_ord_range(r: RoleType)
    ensures
        0 <= r.ord() < ROLE_TYPE_COUNT,
{
}

/// Distinct archetypes have distinct places.
pub proof fn lemma_role_ord_injective(a: RoleType, b: RoleType)
    ensures
        a.ord() == b.ord() ==> a == b,
{
    assert(role_type_at(a.ord()) == a);
    assert(role_type_at(b.ord()) == b);
}


/// The conventions that the legality relation encodes: goalkeepers take a
/// goalkeeper's role on Automatic duty and nothing else, nobody else takes a
/// goalkeeper's role or Automatic duty, and a central defender never attacks.
pub proof fn law_relation_conventions(p: Position, r: RoleType, d: Duty)
    ensures
        p == GK ==> (is_legal(p, r, d) <==> ((r == RoleType::Goalkeeper || r == RoleType::SweeperKeeper)
            && d == Automatic)),
        p != GK && (r == RoleType::Goalkeeper || r == RoleType::SweeperKeeper) ==> !is_legal(p, r, d),
        p != GK && d == Automatic ==> !is_legal(p, r, d),
        p == DC && d == Attack ==> !is_legal(p, r, d),
{
}

} // verus!
