use combat_sim::unit::{GameError, Unit, UnitType};

#[test]
fn archetype_stats_table() {
    assert_eq!(UnitType::Large.stats(), (120, 8));
    assert_eq!(UnitType::Medium.stats(), (90, 12));
    assert_eq!(UnitType::Light.stats(), (60, 18));
}

#[test]
fn archetype_labels() {
    assert_eq!(UnitType::Large.as_str(), "Large");
    assert_eq!(UnitType::Medium.as_str(), "Medium");
    assert_eq!(UnitType::Light.as_str(), "Light");
}

#[test]
fn new_unit_takes_archetype_stats() {
    let u = Unit::new("Bob", UnitType::Light).unwrap();
    assert_eq!(u.name, "Bob");
    assert_eq!(u.health, 60);
    assert_eq!(u.base_damage, 18);
    let v = Unit::new("Ana", UnitType::Large).unwrap();
    assert_eq!(v.health, 120);
    assert_eq!(v.base_damage, 8);
}

#[test]
fn blank_name_is_rejected() {
    assert_eq!(Unit::new("", UnitType::Large).unwrap_err(), GameError::InvalidName);
    assert_eq!(Unit::new("   ", UnitType::Medium).unwrap_err(), GameError::InvalidName);
    assert_eq!(Unit::new(" \t\n", UnitType::Light).unwrap_err(), GameError::InvalidName);
    // Unicode whitespace trims to empty too: en quad, no-break space,
    // ideographic space, line separator.
    assert_eq!(Unit::new("\u{2000}", UnitType::Light).unwrap_err(), GameError::InvalidName);
    assert_eq!(
        Unit::new("\u{00A0}\u{3000}\u{2028}", UnitType::Large).unwrap_err(),
        GameError::InvalidName
    );
    assert!(Unit::new(" x ", UnitType::Light).is_ok());
    assert!(Unit::new("\u{2000}y", UnitType::Light).is_ok());
}

#[test]
fn alive_boundary() {
    let mut u = Unit::new("Bob", UnitType::Light).unwrap();
    assert!(u.is_alive());
    u.health = 1;
    assert!(u.is_alive());
    u.health = 0;
    assert!(!u.is_alive());
    u.health = -5;
    assert!(!u.is_alive());
}

#[test]
fn display_health_clamps_at_zero() {
    let mut u = Unit::new("Bob", UnitType::Light).unwrap();
    assert_eq!(u.display_health(), 60);
    u.health = -12;
    assert_eq!(u.display_health(), 0);
}
