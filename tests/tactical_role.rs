use squad_planner::{Duty, Position, RoleType, TacticalRole, ValidationError};

#[test]
fn test_valid_goalkeeper() {
    assert!(TacticalRole::new(Position::GK, RoleType::Goalkeeper, Duty::Automatic).is_ok());
    assert!(TacticalRole::new(Position::GK, RoleType::Goalkeeper, Duty::Defend).is_err());
}

#[test]
fn test_valid_fullback() {
    assert!(TacticalRole::new(Position::DR, RoleType::FullBack, Duty::Support).is_ok());
    assert!(TacticalRole::new(Position::DR, RoleType::FullBack, Duty::Attack).is_ok());
    assert!(TacticalRole::new(Position::DR, RoleType::FullBack, Duty::Automatic).is_err());
}

#[test]
fn test_invalid_position_role() {
    // A striker's role at a defender's position
    assert!(TacticalRole::new(Position::DC, RoleType::Poacher, Duty::Attack).is_err());
}

#[test]
fn test_get_all_for_position() {
    let gk_roles = TacticalRole::get_all_for_position(Position::GK);
    assert_eq!(gk_roles.len(), 2);

    let striker_roles = TacticalRole::get_all_for_position(Position::STC);
    assert!(striker_roles.len() > 5);
}

#[test]
fn goalkeeper_roles_are_exactly_the_two_keepers() {
    let gk_roles = TacticalRole::get_all_for_position(Position::GK);
    assert_eq!(
        gk_roles,
        vec![
            TacticalRole { position: Position::GK, role: RoleType::Goalkeeper, duty: Duty::Automatic },
            TacticalRole { position: Position::GK, role: RoleType::SweeperKeeper, duty: Duty::Automatic },
        ]
    );
}

#[test]
fn fullback_support_builds_and_automatic_is_illegal() {
    let t = TacticalRole::new(Position::DR, RoleType::FullBack, Duty::Support).unwrap();
    assert_eq!(t.position, Position::DR);
    assert_eq!(t.role, RoleType::FullBack);
    assert_eq!(t.duty, Duty::Support);
    assert_eq!(
        TacticalRole::new(Position::DR, RoleType::FullBack, Duty::Automatic),
        Err(ValidationError::IllegalCombination {
            position: Position::DR,
            role: RoleType::FullBack,
            duty: Duty::Automatic,
        })
    );
}

#[test]
fn poacher_at_centre_back_is_illegal() {
    assert_eq!(
        TacticalRole::new(Position::DC, RoleType::Poacher, Duty::Attack),
        Err(ValidationError::IllegalCombination {
            position: Position::DC,
            role: RoleType::Poacher,
            duty: Duty::Attack,
        })
    );
}

#[test]
fn legal_combinations_per_position() {
    let expected = [
        (Position::GK, 2),
        (Position::DR, 12),
        (Position::DL, 12),
        (Position::DC, 7),
        (Position::WBR, 8),
        (Position::WBL, 8),
        (Position::DMC, 9),
        (Position::MC, 13),
        (Position::MR, 11),
        (Position::ML, 11),
        (Position::AMR, 9),
        (Position::AML, 9),
        (Position::AMC, 7),
        (Position::STC, 13),
    ];
    let mut total = 0;
    for (position, count) in expected {
        let all = TacticalRole::get_all_for_position(position);
        assert_eq!(all.len(), count, "{:?}", position);
        for t in &all {
            assert!(TacticalRole::is_valid_combination(t.position, t.role, t.duty));
        }
        total += all.len();
    }
    let roles = TacticalRole::all_role_types();
    let duties = TacticalRole::all_duties();
    assert_eq!(roles.len(), 42);
    assert_eq!(duties.len(), 4);
    let mut legal = 0;
    for (position, _) in expected {
        for role in &roles {
            for duty in &duties {
                if TacticalRole::is_valid_combination(position, *role, *duty) {
                    legal += 1;
                }
            }
        }
    }
    assert_eq!(legal, total);
}

#[test]
fn no_outfield_position_takes_a_goalkeeper_role() {
    for position in [Position::DR, Position::DC, Position::MC, Position::STC] {
        for duty in TacticalRole::all_duties() {
            assert!(!TacticalRole::is_valid_combination(position, RoleType::Goalkeeper, duty));
            assert!(!TacticalRole::is_valid_combination(position, RoleType::SweeperKeeper, duty));
        }
    }
    assert!(!TacticalRole::is_valid_combination(Position::DC, RoleType::CentralDefender, Duty::Attack));
    assert!(TacticalRole::is_valid_combination(Position::DL, RoleType::CompleteWingBack, Duty::Attack));
    assert!(!TacticalRole::is_valid_combination(Position::DL, RoleType::CompleteWingBack, Duty::Defend));
}

#[test]
fn names_of_role_and_duty() {
    let t = TacticalRole::new(Position::MC, RoleType::BoxToBoxMidfielder, Duty::Support).unwrap();
    assert_eq!(t.role_name(), "Box-to-Box Midfielder");
    assert_eq!(t.duty_name(), "Support");
    let t = TacticalRole::new(Position::STC, RoleType::DeepLyingForward, Duty::Attack).unwrap();
    assert_eq!(t.role_name(), "Deep-Lying Forward");
    assert_eq!(t.duty_name(), "Attack");
}

#[test]
fn listings_follow_archetype_then_duty_order() {
    let roles = TacticalRole::all_role_types();
    let duties = TacticalRole::all_duties();
    let rank = |t: &TacticalRole| {
        let r = roles.iter().position(|x| *x == t.role).unwrap();
        let d = duties.iter().position(|x| *x == t.duty).unwrap();
        r * 4 + d
    };
    for position in [Position::GK, Position::DR, Position::MC, Position::AMR, Position::STC] {
        let all = TacticalRole::get_all_for_position(position);
        for pair in all.windows(2) {
            assert!(rank(&pair[0]) < rank(&pair[1]));
        }
    }
}
