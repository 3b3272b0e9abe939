use damage_calc::equipment::{Equipment, EquipmentOption, EquipmentSet, EquipmentType};

fn gear(ty: EquipmentType, attack: u32, defense: u32, element_value: u32) -> Equipment {
    Equipment {
        name: "gear".to_string(),
        equipment_type: ty,
        attack,
        defense,
        element_value,
        options: vec![],
    }
}

#[test]
fn test_empty_set_contributes_nothing() {
    let set = EquipmentSet::new();
    assert_eq!(set.total_attack(), 0);
    assert_eq!(set.total_defense(), 0);
    assert_eq!(set.element_value(), 0);
}

#[test]
fn test_total_attack_sums_every_slot() {
    let set = EquipmentSet {
        weapon: Some(gear(EquipmentType::Weapon, 100, 5, 20)),
        armor: Some(gear(EquipmentType::Armor, 10, 80, 0)),
        accessory1: Some(gear(EquipmentType::Accessory, 5, 5, 10)),
        accessory2: Some(gear(EquipmentType::Accessory, 0, 10, 10)),
        special: Some(gear(EquipmentType::Special, 20, 20, 20)),
    };
    assert_eq!(set.total_attack(), 135);
}

#[test]
fn test_defense_and_element_read_only_the_weapon() {
    let set = EquipmentSet {
        weapon: Some(gear(EquipmentType::Weapon, 100, 5, 20)),
        armor: Some(gear(EquipmentType::Armor, 0, 80, 30)),
        accessory1: None,
        accessory2: None,
        special: Some(gear(EquipmentType::Special, 0, 20, 40)),
    };
    // Only the weapon slot feeds these two figures; the armor's 80 defense
    // and the other slots' element values are ignored by design.
    assert_eq!(set.total_defense(), 5);
    assert_eq!(set.element_value(), 20);

    let bare = EquipmentSet {
        weapon: None,
        armor: Some(gear(EquipmentType::Armor, 0, 80, 30)),
        accessory1: None,
        accessory2: None,
        special: None,
    };
    assert_eq!(bare.total_defense(), 0);
    assert_eq!(bare.element_value(), 0);
}

#[test]
fn test_full_loadout_of_largest_values() {
    let top = |ty: EquipmentType| gear(ty, u32::MAX, u32::MAX, u32::MAX);
    let set = EquipmentSet {
        weapon: Some(top(EquipmentType::Weapon)),
        armor: Some(top(EquipmentType::Armor)),
        accessory1: Some(top(EquipmentType::Accessory)),
        accessory2: Some(top(EquipmentType::Accessory)),
        special: Some(top(EquipmentType::Special)),
    };
    assert_eq!(set.total_attack(), 5 * (u32::MAX as u64));
}

#[test]
fn test_options_are_carried_but_not_aggregated() {
    let mut weapon = gear(EquipmentType::Weapon, 100, 0, 0);
    weapon.options.push(EquipmentOption {
        name: "攻撃力+10%".to_string(),
        value_tenths: 100,
    });
    let mut set = EquipmentSet::new();
    set.weapon = Some(weapon);
    // Options are descriptive only: the aggregate stays the bare attack.
    assert_eq!(set.total_attack(), 100);
    assert_eq!(set.weapon.as_ref().unwrap().options.len(), 1);
}
