//! Gear records and the five-slot loadout, with the aggregate figures the
//! damage pipeline reads from it.

use vstd::prelude::*;

verus! {

/// The role a piece of gear is made for.
#[derive(Debug, Clone, Copy, PartialEq, Eq, Structural)]
pub enum EquipmentType {
    Weapon,
    Armor,
    Accessory,
    Special,
}

/// A named modifier carried by a piece of gear. Modifier sizes are held in
/// tenths (a value of 100 stands for 10.0); they are descriptive only and are
/// not yet folded into the damage calculation.
#[derive(Debug, Clone)]
pub struct EquipmentOption {
    pub name: String,
    pub value_tenths: u32,
}

/// One piece of gear.
#[derive(Debug, Clone)]
pub struct Equipment {
    pub name: String,
    pub equipment_type: EquipmentType,
    pub attack: u32,
    pub defense: u32,
    pub element_value: u32,
    pub options: Vec<EquipmentOption>,
}

/// A character's loadout: five optional slots. A slot's gear conventionally
/// matches the slot's role, but nothing enforces that.
#[derive(Debug, Clone)]
pub struct EquipmentSet {
    pub weapon: Option<Equipment>,
    pub armor: Option<Equipment>,
    pub accessory1: Option<Equipment>,
    pub accessory2: Option<Equipment>,
    pub special: Option<Equipment>,
}

/// The attack an optional slot contributes: its gear's attack, or 0 when empty.
pub open spec fn spec_slot_attack(slot: Option<Equipment>) -> int {
    match slot {
        Some(e) => e.attack as int,
        None => 0,
    }
}

/// The attack of a whole loadout: every populated slot contributes.
pub open spec fn spec_total_attack(set: EquipmentSet) -> int {
    spec_slot_attack(set.weapon) + spec_slot_attack(set.armor) + spec_slot_attack(set.accessory1)
        + spec_slot_attack(set.accessory2) + spec_slot_attack(set.special)
}

/// The defense of a loadout: only the weapon slot contributes. The asymmetry
/// with `spec_total_attack` is intentional.
pub open spec fn spec_total_defense(set: EquipmentSet) -> int {
    match set.weapon {
        Some(e) => e.defense as int,
        None => 0,
    }
}

/// The element value of a loadout: only the weapon slot contributes.
pub open spec fn spec_element_value(set: EquipmentSet) -> int {
    match set.weapon {
        Some(e) => e.element_value as int,
        None => 0,
    }
}

impl EquipmentSet {
    /// An empty loadout.
    pub fn new() -> (r: EquipmentSet)
        ensures
            r.weapon is None,
            r.armor is None,
            r.accessory1 is None,
            r.accessory2 is None,
            r.special is None,
    {
        EquipmentSet { weapon: None, armor: None, accessory1: None, accessory2: None, special: None }
    }

    /// Sum of attack over all populated slots. Five `u32` values always fit
    /// in a `u64`, so the sum is exact.
    pub fn total_attack(&self) -> (r: u64)
        ensures
            r == spec_total_attack(*self),
    {
        let mut total: u64 = 0;
        if let Some(e) = &self.weapon {
            total += e.attack as u64;
        }
        if let Some(e) = &self.armor {
            total += e.attack as u64;
        }
        if let Some(e) = &self.accessory1 {
            total += e.attack as u64;
        }
        if let Some(e) = &self.accessory2 {
            total += e.attack as u64;
        }
        if let Some(e) = &self.special {
            total += e.attack as u64;
        }
        total
    }

    /// The weapon's defense, or 0 with no weapon equipped.
    pub fn total_defense(&self) -> (r: u32)
        ensures
            r == spec_total_defense(*self),
    {
        match &self.weapon {
            Some(e) => e.defense,
            None => 0,
        }
    }

    /// The weapon's element value, or 0 with no weapon equipped.
    pub fn element_value(&self) -> (r: u32)
        ensures
            r == spec_element_value(*self),
    {
        match &self.weapon {
            Some(e) => e.element_value,
            None => 0,
        }
    }
}

} // verus!
