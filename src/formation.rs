use vstd::prelude::*;
use crate::player::Position;
use crate::tactical_role::TacticalRole;

verus! {

/// The number of slots in a valid formation.
pub const FORMATION_SIZE: usize = 11;

/// A slot of a formation: a position, its place on the pitch (each coordinate
/// from 0 to 100: x left to right, y bottom to top) and an optional tactical role.
#[derive(Debug, Clone, Copy)]
pub struct FormationPosition {
    pub position: Position,
    pub x: u32,
    pub y: u32,
    pub tactical_role: Option<TacticalRole>,
}

/// A pitch layout: slots in display order.
#[derive(Debug, Clone)]
pub struct Formation {
    pub id: Option<i64>,
    pub name: String,
    pub description: Option<String>,
    pub positions: Vec<FormationPosition>,
    pub is_custom: bool,
}

impl Formation {
    /// A built-in formation.
    pub fn new(name: String, positions: Vec<FormationPosition>) -> (r: Formation)
        ensures
            r.id is None,
            r.name == name,
            r.description is None,
            r.positions@ == positions@,
            !r.is_custom,
    {
        Formation { id: None, name, description: None, positions, is_custom: false }
    }

    /// A formation defined by a user.
    pub fn new_custom(name: String, positions: Vec<FormationPosition>) -> (r: Formation)
        ensures
            r.id is None,
            r.name == name,
            r.description is None,
            r.positions@ == positions@,
            r.is_custom,
    {
        Formation { id: None, name, description: None, positions, is_custom: true }
    }

    /// The number of slots.
    pub fn player_count(&self) -> (r: usize)
        ensures
            r == self.positions@.len(),
    {
        self.positions.len()
    }

    /// A formation is valid when it has exactly eleven slots; coordinates are
    /// not checked.
    pub fn is_valid(&self) -> (r: bool)
        ensures
            r == (self.positions@.len() == FORMATION_SIZE),
    {
        self.player_count() == FORMATION_SIZE
    }
}

} // verus!
