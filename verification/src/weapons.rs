//! Weapon-related component types. These are extension points of the combat
//! sandbox: the enums classify weapons for rules and animation purposes, and
//! the ammunition counter tracks a loaded weapon.

use vstd::prelude::*;

verus! {

/// Miscellaneous effects a weapon can carry to represent various features.
#[derive(Copy, Clone, PartialEq, Eq, Structural, Debug)]
pub enum WeaponTrait {
    /// Armor piercing: ignores protection equal to the contained value.
    AP(i32),
    /// Indirect-fire artillery piece.
    Artillery,
    /// Capable of automatic fire; the contained value scales burst and
    /// full-auto attacks.
    Auto(i32),
    /// Explosive or area-of-effect component with the contained radius.
    Blast(i32),
    /// Heavy or high-recoil; penalizes users of low strength.
    Bulky,
    /// Carries a magnified optic that extends effective range when aiming.
    Scope,
    /// Deals non-lethal, quickly healed damage.
    Stun,
    /// Extremely heavy or intense recoil; stronger form of `Bulky`.
    VeryBulky,
    /// Can explode on a badly failed attack roll, harming the user.
    Dangerous,
    /// Sets the target on fire, causing damage over following rounds.
    Fire,
    /// Disposable: inoperable after a single use.
    OneUse,
    /// Functionally silent; hard to locate by sound.
    Silent,
    /// Immense momentum when swung; attacks with it cannot be parried.
    Smasher,
    /// Extremely unstable; explodes on moderately failed attack rolls.
    VeryDangerous,
    /// Repurposed rather than designed for harm; penalized and fragile.
    Improvised,
    /// Finely tuned for precision; bonus to attack rolls.
    Accurate,
    /// Tweaked for greater than usual range.
    LongRange,
}

/// Identifies what skill is used for the attack roll of a weapon.
#[derive(Copy, Clone, Debug, PartialEq, Eq, Structural)]
pub enum WeaponType {
    MeleeUnarmed,
    MeleeBlades,
    MeleeBludgeoning,
    RangedOneHanded,
    RangedTwoHanded,
    HeavyWeaponsArtillery,
    HeavyWeaponsPortable,
    HeavyWeaponsVehicle,
    /// Thrown weapons roll athletics (dexterity) instead of a weapon skill.
    Thrown,
}

/// How many hands a weapon occupies.
#[derive(Copy, Clone, Debug, PartialEq, Eq, Structural)]
pub enum WeaponSize {
    OneHanded,
    TwoHanded,
}

/// Component for when a weapon is loaded with ammunition: the rounds left.
#[derive(Copy, Clone, Debug, PartialEq, Eq, Structural)]
pub struct CurrentAmmo(pub i32);

} // verus!
