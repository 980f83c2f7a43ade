use vstd::prelude::*;
use crate::formation::{Formation, FormationPosition};
use crate::player::{Player, Position};
use crate::role::Role;
use crate::scoring::{max_score, percentage_of, raw_score, score};
use crate::tactical_role::{is_legal, RoleType, TacticalRole, ValidationError};

verus! {

/// A filled starting slot: who plays there, in which role, and how well the
/// player fits it (in hundredths of a percent).
#[derive(Debug, Clone, Copy)]
pub struct SquadPlayer {
    pub player_id: i64,
    pub position: Position,
    pub role_id: Option<i64>,
    pub suitability: Option<u32>,
}

/// A starting eleven and substitutes, with aggregates; players and roles are
/// referred to by identifier.
#[derive(Debug, Clone)]
pub struct Squad {
    pub id: Option<i64>,
    pub name: String,
    pub formation_id: i64,
    pub starting_xi: Vec<SquadPlayer>,
    /// Identifiers of the substitutes.
    pub substitutes: Vec<i64>,
    /// Mean suitability over the rated starting slots, in hundredths of a percent.
    pub average_rating: Option<u32>,
    pub total_value: Option<i64>,
    pub total_wage: Option<i64>,
}

/// A squad with the full records of its players, as handed to a client.
#[derive(Debug, Clone)]
pub struct SquadWithPlayers {
    pub id: Option<i64>,
    pub name: String,
    pub formation_id: i64,
    pub formation_name: String,
    pub starting_xi: Vec<SquadPlayerWithData>,
    pub substitutes: Vec<Player>,
    /// Mean suitability over the rated starting slots, in hundredths of a percent.
    pub average_rating: Option<u32>,
    pub total_value: Option<i64>,
    pub total_wage: Option<i64>,
}

/// A starting slot with the full record of its player.
#[derive(Debug, Clone)]
pub struct SquadPlayerWithData {
    pub player: Player,
    pub position: Position,
    pub role_id: Option<i64>,
    pub role_name: Option<String>,
    /// In hundredths of a percent.
    pub suitability: Option<u32>,
}

/// The sum of the suitabilities that are present.
pub open spec fn rated_total(s: Seq<SquadPlayer>) -> int
    decreases s.len(),
{
    if s.len() == 0 {
        0
    } else {
        rated_total(s.drop_last()) + match s.last().suitability {
            Some(v) => v as int,
            None => 0,
        }
    }
}

/// The number of slots with a suitability.
pub open spec fn rated_count(s: Seq<SquadPlayer>) -> int
    decreases s.len(),
{
    if s.len() == 0 {
        0
    } else {
        rated_count(s.drop_last()) + if s.last().suitability is Some { 1int } else { 0 }
    }
}

/// The mean suitability over the rated slots, rounded down; absent when no slot
/// is rated.
pub open spec fn average_rating_of(s: Seq<SquadPlayer>) -> Option<int> {
    if rated_count(s) > 0 {
        Some(rated_total(s) / rated_count(s))
    } else {
        None
    }
}

/// An optional rating as an optional integer.
pub open spec fn as_int(v: Option<u32>) -> Option<int> {
    match v {
        Some(x) => Some(x as int),
        None => None,
    }
}

impl Squad {
    /// An empty squad for the formation.
    pub fn new(name: String, formation_id: i64) -> (r: Squad)
        ensures
            r.id is None,
            r.name == name,
            r.formation_id == formation_id,
            r.starting_xi@.len() == 0,
            r.substitutes@.len() == 0,
            r.average_rating is None,
            r.total_value is None,
            r.total_wage is None,
    {
        Squad {
            id: None,
            name,
            formation_id,
            starting_xi: Vec::new(),
            substitutes: Vec::new(),
            average_rating: None,
            total_value: None,
            total_wage: None,
        }
    }

    /// Appends a starter; nothing else changes.
    pub fn add_starter(&mut self, player: SquadPlayer)
        ensures
            final(self).starting_xi@ == old(self).starting_xi@.push(player),
            final(self).substitutes@ == old(self).substitutes@,
            final(self).id == old(self).id,
            final(self).name == old(self).name,
            final(self).formation_id == old(self).formation_id,
            final(self).average_rating == old(self).average_rating,
            final(self).total_value == old(self).total_value,
            final(self).total_wage == old(self).total_wage,
    {
        self.starting_xi.push(player);
    }

    /// Appends a substitute; nothing else changes.
    pub fn add_substitute(&mut self, player_id: i64)
        ensures
            final(self).substitutes@ == old(self).substitutes@.push(player_id),
            final(self).starting_xi@ == old(self).starting_xi@,
            final(self).id == old(self).id,
            final(self).name == old(self).name,
            final(self).formation_id == old(self).formation_id,
            final(self).average_rating == old(self).average_rating,
            final(self).total_value == old(self).total_value,
            final(self).total_wage == old(self).total_wage,
    {
        self.substitutes.push(player_id);
    }

    /// Sets the average rating from the starting eleven; nothing else changes.
    pub fn calculate_average_rating(&mut self)
        ensures
            as_int(final(self).average_rating) == average_rating_of(old(self).starting_xi@),
            final(self).starting_xi@ == old(self).starting_xi@,
            final(self).substitutes@ == old(self).substitutes@,
            final(self).id == old(self).id,
            final(self).name == old(self).name,
            final(self).formation_id == old(self).formation_id,
            final(self).total_value == old(self).total_value,
            final(self).total_wage == old(self).total_wage,
    {
        self.average_rating = average_rating(&self.starting_xi);
    }
}

impl Squad {
    /// The squad's own invariants: no substitute is also a starter, and the
    /// average rating is the mean over the rated starting slots.
    pub open spec fn consistent(&self) -> bool {
        &&& forall|i: int, j: int| 0 <= i < self.starting_xi@.len() && 0 <= j < self.substitutes@.len()
            ==> #[trigger] self.starting_xi@[i].player_id != #[trigger] self.substitutes@[j]
        &&& as_int(self.average_rating) == average_rating_of(self.starting_xi@)
    }

    /// Whether the squad fills every slot of the formation, each starter at
    /// the position of its slot.
    pub open spec fn complete_for(&self, formation: &Formation) -> bool {
        &&& self.starting_xi@.len() == formation.positions@.len()
        &&& forall|i: int| 0 <= i < self.starting_xi@.len()
            ==> (#[trigger] self.starting_xi@[i]).position == formation.positions@[i].position
    }

    /// Decides `complete_for`.
    pub fn is_complete(&self, formation: &Formation) -> (r: bool)
        ensures
            r == self.complete_for(formation),
    {
        let n = self.starting_xi.len();
        if n != formation.positions.len() {
            return false;
        }
        let mut i: usize = 0;
        while i < n
            invariant
                n == self.starting_xi@.len(),
                n == formation.positions@.len(),
                i <= n,
                forall|j: int| 0 <= j < i ==> (#[trigger] self.starting_xi@[j]).position
                    == formation.positions@[j].position,
            decreases n - i,
        {
            if self.starting_xi[i].position != formation.positions[i].position {
                return false;
            }
            i = i + 1;
        }
        true
    }
}

/// The mean suitability over the rated slots.
pub fn average_rating(starting_xi: &Vec<SquadPlayer>) -> (r: Option<u32>)
    ensures
        as_int(r) == average_rating_of(starting_xi@),
{
    let n = starting_xi.len();
    let mut total: u128 = 0;
    let mut count: usize = 0;
    let mut i: usize = 0;
    while i < n
        invariant
            n == starting_xi@.len(),
            i <= n,
            total == rated_total(starting_xi@.take(i as int)),
            count == rated_count(starting_xi@.take(i as int)),
            count <= i,
            total <= count * u32::MAX,
        decreases n - i,
    {
        proof {
            let s = starting_xi@.take(i as int + 1);
            assert(s.drop_last() =~= starting_xi@.take(i as int));
            assert(s.last() == starting_xi@[i as int]);
        }
        match starting_xi[i].suitability {
            Some(v) => {
                total = total + v as u128;
                count = count + 1;
            },
            None => {},
        }
        i = i + 1;
    }
    assert(starting_xi@.take(n as int) =~= starting_xi@);
    if count > 0 {
        let avg: u128 = total / (count as u128);
        assert(avg <= u32::MAX) by (nonlinear_arith)
            requires
                total <= count * u32::MAX,
                count > 0,
                avg == (total as int) / (count as int),
        ;
        Some(avg as u32)
    } else {
        None
    }
}


/// A role put in a slot, with the archetype that it plays.
#[derive(Debug, Clone)]
pub struct RoleAssignment {
    pub role: Role,
    pub role_type: RoleType,
}

/// What is assigned to one formation slot: a player and perhaps a role.
#[derive(Debug, Clone)]
pub struct SlotAssignment {
    pub player: Player,
    pub role: Option<RoleAssignment>,
}

/// Why a squad could not be assembled.
#[derive(Debug, Clone, Copy, PartialEq, Eq, Structural)]
pub enum AssemblyError {
    /// The slot at this place was given a role that is illegal at its position.
    IllegalRoleForSlot { slot: usize, error: ValidationError },
    /// A substitute is also in the starting eleven.
    SubstituteInStartingXi { player_id: i64 },
    /// The total value or total wage does not fit in 64 bits.
    TotalOutOfRange,
}

/// The identifier of a stored player.
pub open spec fn id_of(p: Player) -> i64 {
    match p.id {
        Some(i) => i,
        None => 0,
    }
}

/// The number of slots that get a player: assignments beyond the last slot are
/// not used.
pub open spec fn placed_count(slots: int, assignments: int) -> int {
    if slots < assignments { slots } else { assignments }
}

/// Whether the assignment's role, if any, is legal at the position.
pub open spec fn slot_legal(position: Position, a: SlotAssignment) -> bool {
    match a.role {
        Some(ra) => is_legal(position, ra.role_type, ra.role.duty),
        None => true,
    }
}

/// The starting entry for an assignment to a slot at the position.
pub open spec fn slot_entry(position: Position, a: SlotAssignment) -> SquadPlayer {
    SquadPlayer {
        player_id: id_of(a.player),
        position,
        role_id: match a.role {
            Some(ra) => ra.role.id,
            None => None,
        },
        suitability: match a.role {
            Some(ra) => Some(
                percentage_of(
                    raw_score(ra.role.attribute_weights@, a.player),
                    max_score(ra.role.attribute_weights@),
                ) as u32,
            ),
            None => None,
        },
    }
}

/// The sum of the amounts that are present; absent when none is.
pub open spec fn money_total(s: Seq<Option<i64>>) -> Option<int>
    decreases s.len(),
{
    if s.len() == 0 {
        None
    } else {
        match (money_total(s.drop_last()), s.last()) {
            (None, None) => None,
            (Some(t), None) => Some(t),
            (None, Some(v)) => Some(v as int),
            (Some(t), Some(v)) => Some(t + v),
        }
    }
}

/// Whether an optional total fits in 64 bits.
pub open spec fn fits_i64(t: Option<int>) -> bool {
    match t {
        Some(x) => i64::MIN <= x <= i64::MAX,
        None => true,
    }
}

/// An optional amount as an optional integer.
pub open spec fn as_int64(v: Option<i64>) -> Option<int> {
    match v {
        Some(x) => Some(x as int),
        None => None,
    }
}

/// The players of a squad: those placed in the first `k` slots, then the substitutes.
pub open spec fn squad_members(assignments: Seq<SlotAssignment>, k: int, substitutes: Seq<Player>) -> Seq<Player> {
    assignments.take(k).map_values(|a: SlotAssignment| a.player) + substitutes
}

/// The players' market values.
pub open spec fn values_of(players: Seq<Player>) -> Seq<Option<i64>> {
    players.map_values(|p: Player| p.value)
}

/// The players' wages.
pub open spec fn wages_of(players: Seq<Player>) -> Seq<Option<i64>> {
    players.map_values(|p: Player| p.wage)
}

/// Whether the substitute's identifier is among those of the first `k` starters.
pub open spec fn starts(assignments: Seq<SlotAssignment>, k: int, sub: Player) -> bool {
    exists|i: int| 0 <= i < k && id_of(#[trigger] assignments[i].player) == id_of(sub)
}

/// Whether some entry has the player.
fn has_player(entries: &Vec<SquadPlayer>, player_id: i64) -> (r: bool)
    ensures
        r == exists|i: int| 0 <= i < entries@.len() && #[trigger] entries@[i].player_id == player_id,
{
    let mut i: usize = 0;
    while i < entries.len()
        invariant
            i <= entries@.len(),
            forall|i2: int| 0 <= i2 < i ==> #[trigger] entries@[i2].player_id != player_id,
        decreases entries@.len() - i,
    {
        if entries[i].player_id == player_id {
            return true;
        }
        i = i + 1;
    }
    false
}

/// Sums amounts that may be absent.
fn money_sum(values: &Vec<Option<i64>>) -> (r: Option<i128>)
    ensures
        match r {
            Some(t) => money_total(values@) == Some(t as int),
            None => money_total(values@) is None,
        },
{
    let n = values.len();
    let mut total: i128 = 0;
    let mut any = false;
    let mut i: usize = 0;
    while i < n
        invariant
            n == values@.len(),
            i <= n,
            any ==> money_total(values@.take(i as int)) == Some(total as int),
            !any ==> money_total(values@.take(i as int)) is None && total == 0,
            -0x8000_0000_0000_0000 * (i as int) <= total <= 0x7fff_ffff_ffff_ffff * (i as int),
        decreases n - i,
    {
        proof {
            let s = values@.take(i as int + 1);
            assert(s.drop_last() =~= values@.take(i as int));
            assert(s.last() == values@[i as int]);
        }
        match values[i] {
            Some(v) => {
                total = total + v as i128;
                any = true;
            },
            None => {},
        }
        i = i + 1;
    }
    assert(values@.take(n as int) =~= values@);
    if any {
        Some(total)
    } else {
        None
    }
}

/// Composes a squad from a formation: the `i`-th assignment fills the `i`-th
/// slot, each assigned role is checked against the slot's position and scored
/// against the player, and the aggregates are derived.
pub fn assemble(
    name: String,
    formation_id: i64,
    formation: &Formation,
    assignments: &Vec<SlotAssignment>,
    substitutes: &Vec<Player>,
) -> (r: Result<Squad, AssemblyError>)
    requires
        forall|i: int| 0 <= i < assignments@.len() ==> {
            let a = #[trigger] assignments@[i];
            &&& a.player.id is Some
            &&& a.player.wf()
        },
        forall|j: int| 0 <= j < substitutes@.len() ==> (#[trigger] substitutes@[j]).id is Some,
    ensures
        ({
            let slots = formation.positions@;
            let k = placed_count(slots.len() as int, assignments@.len() as int);
            let members = squad_members(assignments@, k, substitutes@);
            match r {
                Err(AssemblyError::IllegalRoleForSlot { slot, error }) => {
                    &&& slot < k
                    &&& !slot_legal(slots[slot as int].position, assignments@[slot as int])
                    &&& forall|i: int| 0 <= i < slot ==> slot_legal(slots[i].position, #[trigger] assignments@[i])
                    &&& assignments@[slot as int].role matches Some(ra)
                    &&& error == (ValidationError::IllegalCombination {
                        position: slots[slot as int].position,
                        role: ra.role_type,
                        duty: ra.role.duty,
                    })
                },
                Err(AssemblyError::SubstituteInStartingXi { player_id }) => {
                    &&& forall|i: int| 0 <= i < k ==> slot_legal(slots[i].position, #[trigger] assignments@[i])
                    &&& exists|j: int| 0 <= j < substitutes@.len() && starts(assignments@, k, #[trigger] substitutes@[j])
                        && player_id == id_of(substitutes@[j])
                        && forall|j2: int| 0 <= j2 < j ==> !starts(assignments@, k, #[trigger] substitutes@[j2])
                },
                Err(AssemblyError::TotalOutOfRange) => {
                    &&& forall|i: int| 0 <= i < k ==> slot_legal(slots[i].position, #[trigger] assignments@[i])
                    &&& forall|j: int| 0 <= j < substitutes@.len() ==> !starts(assignments@, k, #[trigger] substitutes@[j])
                    &&& !(fits_i64(money_total(values_of(members))) && fits_i64(money_total(wages_of(members))))
                },
                Ok(squad) => {
                    &&& forall|i: int| 0 <= i < k ==> slot_legal(slots[i].position, #[trigger] assignments@[i])
                    &&& forall|j: int| 0 <= j < substitutes@.len() ==> !starts(assignments@, k, #[trigger] substitutes@[j])
                    &&& squad.id is None
                    &&& squad.name == name
                    &&& squad.formation_id == formation_id
                    &&& squad.starting_xi@.len() == k
                    &&& forall|i: int| 0 <= i < k ==> #[trigger] squad.starting_xi@[i] == slot_entry(slots[i].position, assignments@[i])
                    &&& squad.substitutes@ == substitutes@.map_values(|p: Player| id_of(p))
                    &&& as_int(squad.average_rating) == average_rating_of(squad.starting_xi@)
                    &&& squad.consistent()
                    &&& as_int64(squad.total_value) == money_total(values_of(members))
                    &&& as_int64(squad.total_wage) == money_total(wages_of(members))
                },
            }
        }),
{
    let n_slots = formation.positions.len();
    let k: usize = if n_slots < assignments.len() { n_slots } else { assignments.len() };
    let mut squad = Squad::new(name, formation_id);
    let mut values: Vec<Option<i64>> = Vec::new();
    let mut wages: Vec<Option<i64>> = Vec::new();
    let ghost placed = assignments@.take(k as int).map_values(|a: SlotAssignment| a.player);
    let mut i: usize = 0;
    while i < k
        invariant
            k == placed_count(formation.positions@.len() as int, assignments@.len() as int),
            k <= formation.positions@.len(),
            k <= assignments@.len(),
            placed == assignments@.take(k as int).map_values(|a: SlotAssignment| a.player),
            forall|i: int| 0 <= i < assignments@.len() ==> {
                let a = #[trigger] assignments@[i];
                &&& a.player.id is Some
                &&& a.player.wf()
            },
            i <= k,
            squad.id is None,
            squad.name == name,
            squad.formation_id == formation_id,
            squad.substitutes@.len() == 0,
            squad.starting_xi@.len() == i,
            forall|j: int| 0 <= j < i ==> slot_legal(formation.positions@[j].position, #[trigger] assignments@[j]),
            forall|j: int| 0 <= j < i ==> #[trigger] squad.starting_xi@[j] == slot_entry(
                formation.positions@[j].position,
                assignments@[j],
            ),
            values@ == values_of(placed.take(i as int)),
            wages@ == wages_of(placed.take(i as int)),
        decreases k - i,
    {
        let slot: &FormationPosition = &formation.positions[i];
        let a: &SlotAssignment = &assignments[i];
        let entry = match &a.role {
            Some(ra) => {
                match TacticalRole::new(slot.position, ra.role_type, ra.role.duty) {
                    Ok(_) => {},
                    Err(error) => {
                        return Err(AssemblyError::IllegalRoleForSlot { slot: i, error });
                    },
                }
                let (_, pct) = score(&ra.role.attribute_weights, &a.player);
                SquadPlayer {
                    player_id: match a.player.id {
                        Some(id) => id,
                        None => 0,
                    },
                    position: slot.position,
                    role_id: ra.role.id,
                    suitability: Some(pct),
                }
            },
            None => SquadPlayer {
                player_id: match a.player.id {
                    Some(id) => id,
                    None => 0,
                },
                position: slot.position,
                role_id: None,
                suitability: None,
            },
        };
        squad.add_starter(entry);
        values.push(a.player.value);
        wages.push(a.player.wage);
        proof {
            assert(placed[i as int] == a.player);
            assert(values_of(placed.take(i as int + 1)) =~= values_of(placed.take(i as int)).push(a.player.value));
            assert(wages_of(placed.take(i as int + 1)) =~= wages_of(placed.take(i as int)).push(a.player.wage));
        }
        i = i + 1;
    }
    assert(placed.take(k as int) =~= placed);
    let n_subs = substitutes.len();
    let mut j: usize = 0;
    while j < n_subs
        invariant
            n_subs == substitutes@.len(),
            k <= assignments@.len(),
            squad.starting_xi@.len() == k,
            k == placed_count(formation.positions@.len() as int, assignments@.len() as int),
            k <= formation.positions@.len(),
            placed == assignments@.take(k as int).map_values(|a: SlotAssignment| a.player),
            forall|i: int| 0 <= i < k ==> slot_legal(formation.positions@[i].position, #[trigger] assignments@[i]),
            forall|i: int| 0 <= i < k ==> #[trigger] squad.starting_xi@[i] == slot_entry(
                formation.positions@[i].position,
                assignments@[i],
            ),
            j <= n_subs,
            squad.id is None,
            squad.name == name,
            squad.formation_id == formation_id,
            squad.substitutes@ == substitutes@.take(j as int).map_values(|p: Player| id_of(p)),
            forall|j2: int| 0 <= j2 < j ==> !starts(assignments@, k as int, #[trigger] substitutes@[j2]),
            values@ == values_of(placed + substitutes@.take(j as int)),
            wages@ == wages_of(placed + substitutes@.take(j as int)),
        decreases n_subs - j,
    {
        let sub: &Player = &substitutes[j];
        let sub_id: i64 = match sub.id {
            Some(id) => id,
            None => 0,
        };
        if has_player(&squad.starting_xi, sub_id) {
            proof {
                let i = choose|i: int| 0 <= i < squad.starting_xi@.len() && #[trigger] squad.starting_xi@[i].player_id == sub_id;
                assert(id_of(assignments@[i].player) == id_of(substitutes@[j as int]));
                assert(starts(assignments@, k as int, substitutes@[j as int]));
            }
            return Err(AssemblyError::SubstituteInStartingXi { player_id: sub_id });
        }
        proof {
            assert forall|i: int| 0 <= i < k implies id_of(#[trigger] assignments@[i].player) != id_of(substitutes@[j as int]) by {
                assert(squad.starting_xi@[i].player_id == id_of(assignments@[i].player));
            }
        }
        squad.add_substitute(sub_id);
        values.push(sub.value);
        wages.push(sub.wage);
        proof {
            assert(substitutes@.take(j as int + 1).map_values(|p: Player| id_of(p))
                =~= substitutes@.take(j as int).map_values(|p: Player| id_of(p)).push(sub_id));
            assert(placed + substitutes@.take(j as int + 1) =~= (placed + substitutes@.take(j as int)).push(*sub));
            assert(values_of((placed + substitutes@.take(j as int)).push(*sub))
                =~= values_of(placed + substitutes@.take(j as int)).push(sub.value));
            assert(wages_of((placed + substitutes@.take(j as int)).push(*sub))
                =~= wages_of(placed + substitutes@.take(j as int)).push(sub.wage));
        }
        j = j + 1;
    }
    assert(substitutes@.take(n_subs as int) =~= substitutes@);
    let total_value = money_sum(&values);
    let total_wage = money_sum(&wages);
    let value_fits = match total_value {
        Some(t) => i64::MIN as i128 <= t && t <= i64::MAX as i128,
        None => true,
    };
    let wage_fits = match total_wage {
        Some(t) => i64::MIN as i128 <= t && t <= i64::MAX as i128,
        None => true,
    };
    if !(value_fits && wage_fits) {
        return Err(AssemblyError::TotalOutOfRange);
    }
    squad.total_value = match total_value {
        Some(t) => Some(t as i64),
        None => None,
    };
    squad.total_wage = match total_wage {
        Some(t) => Some(t as i64),
        None => None,
    };
    squad.calculate_average_rating();
    proof {
        assert forall|i: int, j: int| 0 <= i < squad.starting_xi@.len() && 0 <= j < squad.substitutes@.len()
            implies #[trigger] squad.starting_xi@[i].player_id != #[trigger] squad.substitutes@[j] by {
            assert(squad.substitutes@[j] == id_of(substitutes@[j]));
            assert(!starts(assignments@, k as int, substitutes@[j]));
            assert(squad.starting_xi@[i].player_id == id_of(assignments@[i].player));
        }
    }
    Ok(squad)
}

} // verus!
