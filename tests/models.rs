use squad_planner::{
    assemble, AssemblyError, AttributeWeights, Duty, Formation, FormationPosition, Mentality, Player,
    Position, Role, RoleAssignment, RoleType, SlotAssignment, Squad, SquadPlayer, Tactics,
    ValidationError,
};

fn slot(position: Position, x: u32, y: u32) -> FormationPosition {
    FormationPosition { position, x, y, tactical_role: None }
}

fn stored_player(id: i64, position: Position) -> Player {
    let mut p = Player::new(format!("Player {}", id), 25, position);
    p.id = Some(id);
    p
}

#[test]
fn formation_needs_eleven_slots() {
    let mut positions = Vec::new();
    for i in 0..10 {
        positions.push(slot(Position::MC, i * 10, 50));
    }
    let f = Formation::new("Ten".to_string(), positions.clone());
    assert_eq!(f.player_count(), 10);
    assert!(!f.is_valid());
    positions.push(slot(Position::GK, 0, 1000));
    let f = Formation::new_custom("Eleven".to_string(), positions);
    assert_eq!(f.player_count(), 11);
    assert!(f.is_valid());
    assert!(f.is_custom);
}

#[test]
fn average_rating_of_one_rated_slot() {
    let mut squad = Squad::new("Test Squad".to_string(), 1);
    squad.add_starter(SquadPlayer { player_id: 1, position: Position::GK, role_id: None, suitability: Some(8500) });
    squad.add_starter(SquadPlayer { player_id: 2, position: Position::DC, role_id: None, suitability: None });
    squad.calculate_average_rating();
    assert_eq!(squad.average_rating, Some(8500));
}

#[test]
fn average_rating_of_empty_squad_is_absent() {
    let mut squad = Squad::new("Empty".to_string(), 1);
    squad.calculate_average_rating();
    assert_eq!(squad.average_rating, None);
    squad.add_substitute(4);
    assert_eq!(squad.substitutes, vec![4]);
    squad.calculate_average_rating();
    assert_eq!(squad.average_rating, None);
}

#[test]
fn average_rating_rounds_down() {
    let mut squad = Squad::new("Two".to_string(), 1);
    squad.add_starter(SquadPlayer { player_id: 1, position: Position::MC, role_id: None, suitability: Some(8000) });
    squad.add_starter(SquadPlayer { player_id: 2, position: Position::MC, role_id: None, suitability: Some(7001) });
    squad.calculate_average_rating();
    assert_eq!(squad.average_rating, Some(7500));
}

fn poacher_role() -> RoleAssignment {
    let mut w = AttributeWeights::new();
    w.insert("finishing".to_string(), 900);
    w.insert("pace".to_string(), 800);
    let mut role = Role::new("Poacher".to_string(), Position::STC, Duty::Attack, w);
    role.id = Some(3);
    RoleAssignment { role, role_type: RoleType::Poacher }
}

#[test]
fn assemble_scores_each_slot() {
    let formation = Formation::new(
        "Two".to_string(),
        vec![slot(Position::GK, 50, 5), slot(Position::STC, 50, 90), slot(Position::DC, 50, 20)],
    );
    let keeper = stored_player(1, Position::GK);
    let mut striker = stored_player(2, Position::STC);
    striker.finishing = Some(15);
    striker.pace = Some(18);
    striker.value = Some(50_000_000);
    striker.wage = Some(250_000);
    let mut sub = stored_player(9, Position::MC);
    sub.value = Some(1_000_000);
    let assignments = vec![
        SlotAssignment { player: keeper, role: None },
        SlotAssignment { player: striker, role: Some(poacher_role()) },
    ];
    let squad = assemble("Test Squad".to_string(), 4, &formation, &assignments, &vec![sub]).unwrap();
    assert_eq!(squad.name, "Test Squad");
    assert_eq!(squad.formation_id, 4);
    assert_eq!(squad.starting_xi.len(), 2);
    assert_eq!(squad.starting_xi[0].player_id, 1);
    assert_eq!(squad.starting_xi[0].suitability, None);
    assert_eq!(squad.starting_xi[1].player_id, 2);
    assert_eq!(squad.starting_xi[1].position, Position::STC);
    assert_eq!(squad.starting_xi[1].role_id, Some(3));
    assert_eq!(squad.starting_xi[1].suitability, Some(8206));
    assert_eq!(squad.substitutes, vec![9]);
    assert_eq!(squad.average_rating, Some(8206));
    assert_eq!(squad.total_value, Some(51_000_000));
    assert_eq!(squad.total_wage, Some(250_000));
}

#[test]
fn assemble_without_roles_has_no_rating_or_totals() {
    let formation = Formation::new("One".to_string(), vec![slot(Position::GK, 50, 5)]);
    let assignments = vec![SlotAssignment { player: stored_player(1, Position::GK), role: None }];
    let squad = assemble("S".to_string(), 1, &formation, &assignments, &Vec::new()).unwrap();
    assert_eq!(squad.average_rating, None);
    assert_eq!(squad.total_value, None);
    assert_eq!(squad.total_wage, None);
}

#[test]
fn assemble_rejects_an_illegal_role() {
    let formation = Formation::new("One".to_string(), vec![slot(Position::GK, 50, 5), slot(Position::DC, 50, 20)]);
    let assignments = vec![
        SlotAssignment { player: stored_player(1, Position::GK), role: None },
        SlotAssignment { player: stored_player(2, Position::DC), role: Some(poacher_role()) },
    ];
    let err = assemble("S".to_string(), 1, &formation, &assignments, &Vec::new()).unwrap_err();
    assert_eq!(
        err,
        AssemblyError::IllegalRoleForSlot {
            slot: 1,
            error: ValidationError::IllegalCombination {
                position: Position::DC,
                role: RoleType::Poacher,
                duty: Duty::Attack,
            },
        }
    );
}

#[test]
fn assemble_rejects_a_starter_on_the_bench() {
    let formation = Formation::new("One".to_string(), vec![slot(Position::GK, 50, 5)]);
    let assignments = vec![SlotAssignment { player: stored_player(1, Position::GK), role: None }];
    let bench = vec![stored_player(5, Position::MC), stored_player(1, Position::GK)];
    let err = assemble("S".to_string(), 1, &formation, &assignments, &bench).unwrap_err();
    assert_eq!(err, AssemblyError::SubstituteInStartingXi { player_id: 1 });
}

#[test]
fn assemble_rejects_totals_beyond_64_bits() {
    let formation = Formation::new("One".to_string(), vec![slot(Position::GK, 50, 5)]);
    let mut keeper = stored_player(1, Position::GK);
    keeper.value = Some(i64::MAX);
    let mut sub = stored_player(2, Position::GK);
    sub.value = Some(1);
    let assignments = vec![SlotAssignment { player: keeper, role: None }];
    let err = assemble("S".to_string(), 1, &formation, &assignments, &vec![sub]).unwrap_err();
    assert_eq!(err, AssemblyError::TotalOutOfRange);
}

#[test]
fn assemble_allows_partial_squads_and_ignores_extra_assignments() {
    let formation = Formation::new("Two".to_string(), vec![slot(Position::GK, 50, 5), slot(Position::DC, 50, 20)]);
    let one = vec![SlotAssignment { player: stored_player(1, Position::GK), role: None }];
    let squad = assemble("S".to_string(), 1, &formation, &one, &Vec::new()).unwrap();
    assert_eq!(squad.starting_xi.len(), 1);
    let three = vec![
        SlotAssignment { player: stored_player(1, Position::GK), role: None },
        SlotAssignment { player: stored_player(2, Position::DC), role: None },
        SlotAssignment { player: stored_player(3, Position::DC), role: None },
    ];
    let squad = assemble("S".to_string(), 1, &formation, &three, &Vec::new()).unwrap();
    assert_eq!(squad.starting_xi.len(), 2);
    assert_eq!(squad.starting_xi[1].position, Position::DC);
}

#[test]
fn player_lookup_by_attribute_name() {
    let mut p = Player::new("Keeper".to_string(), 31, Position::GK);
    assert!(p.is_goalkeeper());
    assert_eq!(p.attribute("reflexes"), None);
    p.reflexes = Some(17);
    p.work_rate = Some(12);
    assert_eq!(p.attribute("reflexes"), Some(17));
    assert_eq!(p.attribute("work_rate"), Some(12));
    assert_eq!(p.attribute("Reflexes"), None);
    assert!(!Player::new("X".to_string(), 20, Position::DC).is_goalkeeper());
}

#[test]
fn canonical_codes_read_back() {
    for p in [Position::GK, Position::WBL, Position::DMC, Position::AMC, Position::STC] {
        assert_eq!(Position::from_code(p.as_str()), Some(p));
    }
    assert_eq!(Position::from_code("ST"), None);
    assert_eq!(Position::DMC.as_str(), "DMC");
    for d in [Duty::Defend, Duty::Support, Duty::Attack, Duty::Automatic] {
        assert_eq!(Duty::from_name(d.as_str()), Some(d));
    }
    assert_eq!(Duty::from_name("defend"), None);
    assert_eq!(Mentality::VeryAttacking.as_str(), "Very Attacking");
    assert_eq!(Mentality::from_name("Very Defensive"), Some(Mentality::VeryDefensive));
    assert_eq!(Mentality::from_name("Cautious"), Some(Mentality::Cautious));
    assert_eq!(Mentality::from_name("Reckless"), None);
}

#[test]
fn tactics_start_at_defaults() {
    let t = Tactics::new("Test Tactics".to_string());
    assert_eq!(t.name, "Test Tactics");
    assert_eq!(t.mentality, Mentality::Balanced);
    assert!(t.team_instructions.is_empty());
    assert_eq!(t.squad_id, None);
    let t = Tactics::new_for_squad("For squad".to_string(), 12);
    assert_eq!(t.squad_id, Some(12));
    assert_eq!(t.mentality.as_str(), "Balanced");
}

#[test]
fn completeness_compares_slots_and_positions() {
    let formation = Formation::new("Two".to_string(), vec![slot(Position::GK, 50, 5), slot(Position::DC, 50, 20)]);
    let mut squad = Squad::new("S".to_string(), 1);
    assert!(!squad.is_complete(&formation));
    squad.add_starter(SquadPlayer { player_id: 1, position: Position::GK, role_id: None, suitability: None });
    assert!(!squad.is_complete(&formation));
    squad.add_starter(SquadPlayer { player_id: 2, position: Position::DL, role_id: None, suitability: None });
    assert!(!squad.is_complete(&formation));
    let assignments = vec![
        SlotAssignment { player: stored_player(1, Position::GK), role: None },
        SlotAssignment { player: stored_player(2, Position::DC), role: None },
    ];
    let full = assemble("S".to_string(), 1, &formation, &assignments, &Vec::new()).unwrap();
    assert!(full.is_complete(&formation));
}
