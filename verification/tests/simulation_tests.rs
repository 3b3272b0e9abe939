use damage_calc::damage::DamageCalculator;
use damage_calc::equipment::{Equipment, EquipmentSet, EquipmentType};
use damage_calc::monster::Monster;

fn fixture() -> (EquipmentSet, Monster) {
    let weapon = Equipment {
        name: "武器".to_string(),
        equipment_type: EquipmentType::Weapon,
        attack: 100,
        defense: 0,
        element_value: 0,
        options: vec![],
    };
    let mut set = EquipmentSet::new();
    set.weapon = Some(weapon);
    // Base damage 50: single hits range over [45, 55].
    let monster = Monster::new("m", "m", 1, 1000, 50, 0, 0, 0, 0).unwrap();
    (set, monster)
}

#[test]
fn test_single_hit_stays_in_band() {
    let (set, monster) = fixture();
    let mut calculator = DamageCalculator::with_seed(42);
    for _ in 0..200 {
        let hit = calculator.simulate_single_hit(&set, &monster);
        assert!((45..=55).contains(&hit));
    }
}

#[test]
fn test_single_hit_draws_vary() {
    // The draw must come from the range, not echo one of its ends.
    let (set, monster) = fixture();
    let mut calculator = DamageCalculator::with_seed(7);
    let mut seen = std::collections::HashSet::new();
    for _ in 0..200 {
        seen.insert(calculator.simulate_single_hit(&set, &monster));
    }
    assert!(seen.len() > 3);
}

#[test]
fn test_seeded_runs_repeat() {
    let (set, monster) = fixture();
    let mut first = DamageCalculator::with_seed(123);
    let mut second = DamageCalculator::with_seed(123);
    for _ in 0..20 {
        assert_eq!(
            first.simulate_single_hit(&set, &monster),
            second.simulate_single_hit(&set, &monster)
        );
    }
}

#[test]
fn test_zero_hits_is_rejected() {
    let (set, monster) = fixture();
    let mut calculator = DamageCalculator::with_seed(5);
    assert_eq!(calculator.simulate_multiple_hits(&set, &monster, 0), None);
}

#[test]
fn test_one_hit_mean_is_one_draw() {
    let (set, monster) = fixture();
    let mut calculator = DamageCalculator::with_seed(9);
    let (total, count) = calculator.simulate_multiple_hits(&set, &monster, 1).unwrap();
    assert_eq!(count, 1);
    assert!((45..=55).contains(&(total as u64)));
}

#[test]
fn test_many_hits_mean_stays_in_band() {
    let (set, monster) = fixture();
    let mut calculator = DamageCalculator::with_seed(77);
    let (total, count) = calculator.simulate_multiple_hits(&set, &monster, 50).unwrap();
    assert_eq!(count, 50);
    assert!(total >= 45 * 50);
    assert!(total <= 55 * 50);
}
