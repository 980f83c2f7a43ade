use squad_planner::{
    max_score_of, percentage, score, AttributeWeights, Duty, Player, Position, Role, RoleSuitability,
    WeightsError,
};

fn striker_weights() -> AttributeWeights {
    let mut w = AttributeWeights::new();
    w.insert("finishing".to_string(), 900);
    w.insert("pace".to_string(), 800);
    w
}

#[test]
fn suitability_example() {
    let weights = striker_weights();
    let mut player = Player::new("Striker".to_string(), 25, Position::STC);
    player.finishing = Some(15);
    player.pace = Some(18);
    let (raw, pct) = score(&weights, &player);
    // 0.9 * 15 + 0.8 * 18 = 27.9, in thousandths
    assert_eq!(raw, 27900);
    // 0.9 * 20 + 0.8 * 20 = 34.0, in thousandths
    assert_eq!(max_score_of(&weights), 34000);
    // 82.06%, in hundredths
    assert_eq!(pct, 8206);
}

#[test]
fn unrated_attributes_bring_nothing_but_count_in_the_maximum() {
    let weights = striker_weights();
    let mut player = Player::new("Striker".to_string(), 25, Position::STC);
    player.finishing = Some(20);
    let (raw, pct) = score(&weights, &player);
    assert_eq!(raw, 18000);
    // 18000 / 34000 = 52.94%
    assert_eq!(pct, 5294);
}

#[test]
fn unknown_attribute_names_score_zero() {
    let mut weights = AttributeWeights::new();
    weights.insert("finsihing".to_string(), 1000);
    let mut player = Player::new("Striker".to_string(), 25, Position::STC);
    player.finishing = Some(20);
    assert_eq!(score(&weights, &player), (0, 0));
    assert_eq!(max_score_of(&weights), 20000);
}

#[test]
fn empty_weights_give_zero_percent() {
    let weights = AttributeWeights::new();
    let player = Player::new("Anyone".to_string(), 30, Position::MC);
    assert_eq!(score(&weights, &player), (0, 0));
}

#[test]
fn top_ratings_give_full_percentage() {
    let weights = striker_weights();
    let mut player = Player::new("Striker".to_string(), 25, Position::STC);
    player.finishing = Some(20);
    player.pace = Some(20);
    assert_eq!(score(&weights, &player), (34000, 10000));
}

#[test]
fn percentage_rounds_and_caps() {
    assert_eq!(percentage(27900, 34000), 8206);
    assert_eq!(percentage(1, 3), 3333);
    assert_eq!(percentage(2, 3), 6667);
    assert_eq!(percentage(50, 40), 10000);
    assert_eq!(percentage(5, 0), 0);
}

#[test]
fn role_suitability_normalises() {
    let s = RoleSuitability::new(7, "Poacher".to_string(), 27900, 34000);
    assert_eq!(s.role_id, 7);
    assert_eq!(s.role_name, "Poacher");
    assert_eq!(s.score, 27900);
    assert_eq!(s.percentage, 8206);
    assert_eq!(RoleSuitability::new(7, "Poacher".to_string(), 10, 0).percentage, 0);
}

#[test]
fn absent_weight_is_zero() {
    let role = Role::new("Test Striker".to_string(), Position::STC, Duty::Attack, striker_weights());
    assert_eq!(role.get_weight("finishing"), 900);
    assert_eq!(role.get_weight("pace"), 800);
    assert_eq!(role.get_weight("passing"), 0);
    assert_eq!(role.get_weight(""), 0);
    assert!(!role.is_custom);
    let custom = Role::new_custom("Mine".to_string(), Position::MC, Duty::Support, AttributeWeights::new());
    assert!(custom.is_custom);
    assert_eq!(custom.get_weight("finishing"), 0);
}

#[test]
fn insert_replaces_an_existing_weight() {
    let mut w = striker_weights();
    w.insert("finishing".to_string(), 500);
    assert_eq!(w.len(), 2);
    assert_eq!(w.get("finishing"), Some(500));
    assert_eq!(w.entry(0), ("finishing", 500));
    assert_eq!(w.entry(1), ("pace", 800));
    assert_eq!(w.get("heading"), None);
}

#[test]
fn weights_round_trip_through_json() {
    let w = striker_weights();
    let text = w.to_json().unwrap();
    assert_eq!(text, "[[\"finishing\",900],[\"pace\",800]]");
    let back = AttributeWeights::from_json(&text).unwrap();
    assert_eq!(back.len(), 2);
    assert_eq!(back.entry(0), ("finishing", 900));
    assert_eq!(back.entry(1), ("pace", 800));
}

#[test]
fn weights_json_errors() {
    assert_eq!(AttributeWeights::from_json("{not json").unwrap_err(), WeightsError::Malformed);
    assert_eq!(
        AttributeWeights::from_json("[[\"pace\",800],[\"pace\",700]]").unwrap_err(),
        WeightsError::DuplicateName
    );
    assert_eq!(
        AttributeWeights::from_json("[[\"pace\",1001]]").unwrap_err(),
        WeightsError::WeightOutOfRange
    );
    assert_eq!(AttributeWeights::from_json("[]").unwrap().len(), 0);
}

#[test]
fn from_entries_checks_the_mapping() {
    let ok = AttributeWeights::from_entries(vec![("a".to_string(), 0), ("b".to_string(), 1000)]);
    assert_eq!(ok.unwrap().len(), 2);
    let dup = AttributeWeights::from_entries(vec![("a".to_string(), 1), ("a".to_string(), 2)]);
    assert_eq!(dup.unwrap_err(), WeightsError::DuplicateName);
}

#[test]
fn cloned_weights_keep_every_entry() {
    let w = striker_weights();
    let c = w.clone();
    assert_eq!(c.len(), 2);
    assert_eq!(c.entry(0), ("finishing", 900));
    assert_eq!(c.entry(1), ("pace", 800));
    let role = Role::new("R".to_string(), Position::STC, Duty::Attack, w).clone();
    assert_eq!(role.get_weight("pace"), 800);
}

#[test]
fn empty_weights_encode_and_decode() {
    let text = AttributeWeights::new().to_json().unwrap();
    assert_eq!(text, "[]");
    assert_eq!(AttributeWeights::from_json(&text).unwrap().len(), 0);
}
