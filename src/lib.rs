pub mod formation;
pub mod player;
pub mod role;
pub mod scoring;
pub mod squad;
pub mod tactical_role;
pub mod tactics;
pub mod text;

pub use formation::{Formation, FormationPosition};
pub use player::{Player, Position};
pub use role::{AttributeWeights, Duty, Role, RoleSuitability, WeightsError};
pub use scoring::{max_score_of, percentage, score};
pub use squad::{
    assemble, AssemblyError, RoleAssignment, SlotAssignment, Squad, SquadPlayer, SquadPlayerWithData,
    SquadWithPlayers,
};
pub use tactical_role::{RoleType, TacticalRole, ValidationError};
pub use tactics::{DefensiveLine, Mentality, PressingIntensity, Tactics, Tempo, Width};
