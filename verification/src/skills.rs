//! The vocabulary of character progression: skills, weapons and damage
//! types, and the identifiers under which the configuration files name them
//! (and name roles).
use vstd::prelude::*;
use crate::roles::RoleType;

verus! {

/// The trainable skills of a character.
#[derive(Debug, Clone, Copy, PartialEq, Eq, Structural)]
pub enum SkillType {
    Swordsmanship,
    AxeMastery,
    MaceSkill,
    HammerSkill,
    SpearMastery,
    DaggerMastery,
    ShieldDefense,
    Archery,
    Crossbow,
    ThrowingWeapons,
    FireMagic,
    IceMagic,
    LightningMagic,
    ShadowMagic,
    NatureMagic,
    ArcanieMagic,
    Restoration,
    Divination,
    HeavyArmor,
    MediumArmor,
    LightArmor,
    Smithing,
    Alchemy,
    Enchanting,
    Cooking,
    Athletics,
    Stealth,
    Lockpicking,
    Pickpocketing,
}

/// The configuration identifier of a skill.
pub open spec fn skill_id(value: SkillType) -> Seq<char> {
    match value {
        SkillType::Swordsmanship => "swordsmanship"@,
        SkillType::AxeMastery => "axe_mastery"@,
        SkillType::MaceSkill => "mace_skill"@,
        SkillType::HammerSkill => "hammer_skill"@,
        SkillType::SpearMastery => "spear_mastery"@,
        SkillType::DaggerMastery => "dagger_mastery"@,
        SkillType::ShieldDefense => "shield_defense"@,
        SkillType::Archery => "archery"@,
        SkillType::Crossbow => "crossbow"@,
        SkillType::ThrowingWeapons => "throwing_weapons"@,
        SkillType::FireMagic => "fire_magic"@,
        SkillType::IceMagic => "ice_magic"@,
        SkillType::LightningMagic => "lightning_magic"@,
        SkillType::ShadowMagic => "shadow_magic"@,
        SkillType::NatureMagic => "nature_magic"@,
        SkillType::ArcanieMagic => "arcane_magic"@,
        SkillType::Restoration => "restoration"@,
        SkillType::Divination => "divination"@,
        SkillType::HeavyArmor => "heavy_armor"@,
        SkillType::MediumArmor => "medium_armor"@,
        SkillType::LightArmor => "light_armor"@,
        SkillType::Smithing => "smithing"@,
        SkillType::Alchemy => "alchemy"@,
        SkillType::Enchanting => "enchanting"@,
        SkillType::Cooking => "cooking"@,
        SkillType::Athletics => "athletics"@,
        SkillType::Stealth => "stealth"@,
        SkillType::Lockpicking => "lockpicking"@,
        SkillType::Pickpocketing => "pickpocketing"@,
    }
}

/// The skill that a configuration identifier names, if any.
pub open spec fn skill_from_id(id: Seq<char>) -> Option<SkillType> {
    if id == skill_id(SkillType::Swordsmanship) {
        Some(SkillType::Swordsmanship)
    } else if id == skill_id(SkillType::AxeMastery) {
        Some(SkillType::AxeMastery)
    } else if id == skill_id(SkillType::MaceSkill) {
        Some(SkillType::MaceSkill)
    } else if id == skill_id(SkillType::HammerSkill) {
        Some(SkillType::HammerSkill)
    } else if id == skill_id(SkillType::SpearMastery) {
        Some(SkillType::SpearMastery)
    } else if id == skill_id(SkillType::DaggerMastery) {
        Some(SkillType::DaggerMastery)
    } else if id == skill_id(SkillType::ShieldDefense) {
        Some(SkillType::ShieldDefense)
    } else if id == skill_id(SkillType::Archery) {
        Some(SkillType::Archery)
    } else if id == skill_id(SkillType::Crossbow) {
        Some(SkillType::Crossbow)
    } else if id == skill_id(SkillType::ThrowingWeapons) {
        Some(SkillType::ThrowingWeapons)
    } else if id == skill_id(SkillType::FireMagic) {
        Some(SkillType::FireMagic)
    } else if id == skill_id(SkillType::IceMagic) {
        Some(SkillType::IceMagic)
    } else if id == skill_id(SkillType::LightningMagic) {
        Some(SkillType::LightningMagic)
    } else if id == skill_id(SkillType::ShadowMagic) {
        Some(SkillType::ShadowMagic)
    } else if id == skill_id(SkillType::NatureMagic) {
        Some(SkillType::NatureMagic)
    } else if id == skill_id(SkillType::ArcanieMagic) {
        Some(SkillType::ArcanieMagic)
    } else if id == skill_id(SkillType::Restoration) {
        Some(SkillType::Restoration)
    } else if id == skill_id(SkillType::Divination) {
        Some(SkillType::Divination)
    } else if id == skill_id(SkillType::HeavyArmor) {
        Some(SkillType::HeavyArmor)
    } else if id == skill_id(SkillType::MediumArmor) {
        Some(SkillType::MediumArmor)
    } else if id == skill_id(SkillType::LightArmor) {
        Some(SkillType::LightArmor)
    } else if id == skill_id(SkillType::Smithing) {
        Some(SkillType::Smithing)
    } else if id == skill_id(SkillType::Alchemy) {
        Some(SkillType::Alchemy)
    } else if id == skill_id(SkillType::Enchanting) {
        Some(SkillType::Enchanting)
    } else if id == skill_id(SkillType::Cooking) {
        Some(SkillType::Cooking)
    } else if id == skill_id(SkillType::Athletics) {
        Some(SkillType::Athletics)
    } else if id == skill_id(SkillType::Stealth) {
        Some(SkillType::Stealth)
    } else if id == skill_id(SkillType::Lockpicking) {
        Some(SkillType::Lockpicking)
    } else if id == skill_id(SkillType::Pickpocketing) {
        Some(SkillType::Pickpocketing)
    } else {
        None
    }
}

/// The length and first characters of each skill identifier, which
/// already tell any two of them apart.
proof fn lemma_skill_id_shapes()
    ensures
        "swordsmanship"@.len() == 13 && "swordsmanship"@[0] == 's' && "swordsmanship"@[1] == 'w',
        "axe_mastery"@.len() == 11 && "axe_mastery"@[0] == 'a' && "axe_mastery"@[1] == 'x',
        "mace_skill"@.len() == 10 && "mace_skill"@[0] == 'm' && "mace_skill"@[1] == 'a',
        "hammer_skill"@.len() == 12 && "hammer_skill"@[0] == 'h' && "hammer_skill"@[1] == 'a',
        "spear_mastery"@.len() == 13 && "spear_mastery"@[0] == 's' && "spear_mastery"@[1] == 'p',
        "dagger_mastery"@.len() == 14 && "dagger_mastery"@[0] == 'd' && "dagger_mastery"@[1] == 'a',
        "shield_defense"@.len() == 14 && "shield_defense"@[0] == 's' && "shield_defense"@[1] == 'h',
        "archery"@.len() == 7 && "archery"@[0] == 'a' && "archery"@[1] == 'r',
        "crossbow"@.len() == 8 && "crossbow"@[0] == 'c' && "crossbow"@[1] == 'r',
        "throwing_weapons"@.len() == 16 && "throwing_weapons"@[0] == 't' && "throwing_weapons"@[1] == 'h',
        "fire_magic"@.len() == 10 && "fire_magic"@[0] == 'f' && "fire_magic"@[1] == 'i',
        "ice_magic"@.len() == 9 && "ice_magic"@[0] == 'i' && "ice_magic"@[1] == 'c',
        "lightning_magic"@.len() == 15 && "lightning_magic"@[0] == 'l' && "lightning_magic"@[1] == 'i',
        "shadow_magic"@.len() == 12 && "shadow_magic"@[0] == 's' && "shadow_magic"@[1] == 'h',
        "nature_magic"@.len() == 12 && "nature_magic"@[0] == 'n' && "nature_magic"@[1] == 'a',
        "arcane_magic"@.len() == 12 && "arcane_magic"@[0] == 'a' && "arcane_magic"@[1] == 'r',
        "restoration"@.len() == 11 && "restoration"@[0] == 'r' && "restoration"@[1] == 'e',
        "divination"@.len() == 10 && "divination"@[0] == 'd' && "divination"@[1] == 'i',
        "heavy_armor"@.len() == 11 && "heavy_armor"@[0] == 'h' && "heavy_armor"@[1] == 'e',
        "medium_armor"@.len() == 12 && "medium_armor"@[0] == 'm' && "medium_armor"@[1] == 'e',
        "light_armor"@.len() == 11 && "light_armor"@[0] == 'l' && "light_armor"@[1] == 'i',
        "smithing"@.len() == 8 && "smithing"@[0] == 's' && "smithing"@[1] == 'm',
        "alchemy"@.len() == 7 && "alchemy"@[0] == 'a' && "alchemy"@[1] == 'l',
        "enchanting"@.len() == 10 && "enchanting"@[0] == 'e' && "enchanting"@[1] == 'n',
        "cooking"@.len() == 7 && "cooking"@[0] == 'c' && "cooking"@[1] == 'o',
        "athletics"@.len() == 9 && "athletics"@[0] == 'a' && "athletics"@[1] == 't',
        "stealth"@.len() == 7 && "stealth"@[0] == 's' && "stealth"@[1] == 't',
        "lockpicking"@.len() == 11 && "lockpicking"@[0] == 'l' && "lockpicking"@[1] == 'o',
        "pickpocketing"@.len() == 13 && "pickpocketing"@[0] == 'p' && "pickpocketing"@[1] == 'i',
{
    reveal_strlit("swordsmanship");
    reveal_strlit("axe_mastery");
    reveal_strlit("mace_skill");
    reveal_strlit("hammer_skill");
    reveal_strlit("spear_mastery");
    reveal_strlit("dagger_mastery");
    reveal_strlit("shield_defense");
    reveal_strlit("archery");
    reveal_strlit("crossbow");
    reveal_strlit("throwing_weapons");
    reveal_strlit("fire_magic");
    reveal_strlit("ice_magic");
    reveal_strlit("lightning_magic");
    reveal_strlit("shadow_magic");
    reveal_strlit("nature_magic");
    reveal_strlit("arcane_magic");
    reveal_strlit("restoration");
    reveal_strlit("divination");
    reveal_strlit("heavy_armor");
    reveal_strlit("medium_armor");
    reveal_strlit("light_armor");
    reveal_strlit("smithing");
    reveal_strlit("alchemy");
    reveal_strlit("enchanting");
    reveal_strlit("cooking");
    reveal_strlit("athletics");
    reveal_strlit("stealth");
    reveal_strlit("lockpicking");
    reveal_strlit("pickpocketing");
}

/// Every skill is found again from its own identifier.
pub proof fn lemma_skill_id_round_trip(value: SkillType)
    ensures
        skill_from_id(skill_id(value)) == Some(value),
{
    lemma_skill_id_shapes();
}

/// An identifier that names a skill is that skill's own identifier.
pub proof fn lemma_skill_from_id_sound(id: Seq<char>)
    ensures
        skill_from_id(id) matches Some(value) ==> skill_id(value) == id,
{
}

/// The kinds of weapon (and shield) a character can carry.
#[derive(Debug, Clone, Copy, PartialEq, Eq, Structural)]
pub enum WeaponType {
    Sword,
    TwoHandedSword,
    Axe,
    TwoHandedAxe,
    Mace,
    TwoHandedMace,
    Hammer,
    TwoHandedHammer,
    Spear,
    Pike,
    Dagger,
    Shield,
    Bow,
    Longbow,
    Crossbow,
    HandCrossbow,
    ThrowingKnife,
    ThrowingAxe,
    Javelin,
    FireStaff,
    IceStaff,
    LightningStaff,
    ShadowStaff,
    NatureStaff,
    ArcaneStaff,
    RestorationStaff,
    DivinationStaff,
    MagicalOrb,
}

/// The configuration identifier of a weapon.
pub open spec fn weapon_id(value: WeaponType) -> Seq<char> {
    match value {
        WeaponType::Sword => "sword"@,
        WeaponType::TwoHandedSword => "two_handed_sword"@,
        WeaponType::Axe => "axe"@,
        WeaponType::TwoHandedAxe => "two_handed_axe"@,
        WeaponType::Mace => "mace"@,
        WeaponType::TwoHandedMace => "two_handed_mace"@,
        WeaponType::Hammer => "hammer"@,
        WeaponType::TwoHandedHammer => "two_handed_hammer"@,
        WeaponType::Spear => "spear"@,
        WeaponType::Pike => "pike"@,
        WeaponType::Dagger => "dagger"@,
        WeaponType::Shield => "shield"@,
        WeaponType::Bow => "bow"@,
        WeaponType::Longbow => "longbow"@,
        WeaponType::Crossbow => "crossbow"@,
        WeaponType::HandCrossbow => "hand_crossbow"@,
        WeaponType::ThrowingKnife => "throwing_knife"@,
        WeaponType::ThrowingAxe => "throwing_axe"@,
        WeaponType::Javelin => "javelin"@,
        WeaponType::FireStaff => "fire_staff"@,
        WeaponType::IceStaff => "ice_staff"@,
        WeaponType::LightningStaff => "lightning_staff"@,
        WeaponType::ShadowStaff => "shadow_staff"@,
        WeaponType::NatureStaff => "nature_staff"@,
        WeaponType::ArcaneStaff => "arcane_staff"@,
        WeaponType::RestorationStaff => "restoration_staff"@,
        WeaponType::DivinationStaff => "divination_staff"@,
        WeaponType::MagicalOrb => "magical_orb"@,
    }
}

/// The weapon that a configuration identifier names, if any.
pub open spec fn weapon_from_id(id: Seq<char>) -> Option<WeaponType> {
    if id == weapon_id(WeaponType::Sword) {
        Some(WeaponType::Sword)
    } else if id == weapon_id(WeaponType::TwoHandedSword) {
        Some(WeaponType::TwoHandedSword)
    } else if id == weapon_id(WeaponType::Axe) {
        Some(WeaponType::Axe)
    } else if id == weapon_id(WeaponType::TwoHandedAxe) {
        Some(WeaponType::TwoHandedAxe)
    } else if id == weapon_id(WeaponType::Mace) {
        Some(WeaponType::Mace)
    } else if id == weapon_id(WeaponType::TwoHandedMace) {
        Some(WeaponType::TwoHandedMace)
    } else if id == weapon_id(WeaponType::Hammer) {
        Some(WeaponType::Hammer)
    } else if id == weapon_id(WeaponType::TwoHandedHammer) {
        Some(WeaponType::TwoHandedHammer)
    } else if id == weapon_id(WeaponType::Spear) {
        Some(WeaponType::Spear)
    } else if id == weapon_id(WeaponType::Pike) {
        Some(WeaponType::Pike)
    } else if id == weapon_id(WeaponType::Dagger) {
        Some(WeaponType::Dagger)
    } else if id == weapon_id(WeaponType::Shield) {
        Some(WeaponType::Shield)
    } else if id == weapon_id(WeaponType::Bow) {
        Some(WeaponType::Bow)
    } else if id == weapon_id(WeaponType::Longbow) {
        Some(WeaponType::Longbow)
    } else if id == weapon_id(WeaponType::Crossbow) {
        Some(WeaponType::Crossbow)
    } else if id == weapon_id(WeaponType::HandCrossbow) {
        Some(WeaponType::HandCrossbow)
    } else if id == weapon_id(WeaponType::ThrowingKnife) {
        Some(WeaponType::ThrowingKnife)
    } else if id == weapon_id(WeaponType::ThrowingAxe) {
        Some(WeaponType::ThrowingAxe)
    } else if id == weapon_id(WeaponType::Javelin) {
        Some(WeaponType::Javelin)
    } else if id == weapon_id(WeaponType::FireStaff) {
        Some(WeaponType::FireStaff)
    } else if id == weapon_id(WeaponType::IceStaff) {
        Some(WeaponType::IceStaff)
    } else if id == weapon_id(WeaponType::LightningStaff) {
        Some(WeaponType::LightningStaff)
    } else if id == weapon_id(WeaponType::ShadowStaff) {
        Some(WeaponType::ShadowStaff)
    } else if id == weapon_id(WeaponType::NatureStaff) {
        Some(WeaponType::NatureStaff)
    } else if id == weapon_id(WeaponType::ArcaneStaff) {
        Some(WeaponType::ArcaneStaff)
    } else if id == weapon_id(WeaponType::RestorationStaff) {
        Some(WeaponType::RestorationStaff)
    } else if id == weapon_id(WeaponType::DivinationStaff) {
        Some(WeaponType::DivinationStaff)
    } else if id == weapon_id(WeaponType::MagicalOrb) {
        Some(WeaponType::MagicalOrb)
    } else {
        None
    }
}

/// The length and first characters of each weapon identifier, which
/// already tell any two of them apart.
proof fn lemma_weapon_id_shapes()
    ensures
        "sword"@.len() == 5 && "sword"@[0] == 's' && "sword"@[1] == 'w',
        "two_handed_sword"@.len() == 16 && "two_handed_sword"@[0] == 't' && "two_handed_sword"@[1] == 'w',
        "axe"@.len() == 3 && "axe"@[0] == 'a' && "axe"@[1] == 'x',
        "two_handed_axe"@.len() == 14 && "two_handed_axe"@[0] == 't' && "two_handed_axe"@[1] == 'w',
        "mace"@.len() == 4 && "mace"@[0] == 'm' && "mace"@[1] == 'a',
        "two_handed_mace"@.len() == 15 && "two_handed_mace"@[0] == 't' && "two_handed_mace"@[1] == 'w',
        "hammer"@.len() == 6 && "hammer"@[0] == 'h' && "hammer"@[1] == 'a',
        "two_handed_hammer"@.len() == 17 && "two_handed_hammer"@[0] == 't' && "two_handed_hammer"@[1] == 'w',
        "spear"@.len() == 5 && "spear"@[0] == 's' && "spear"@[1] == 'p',
        "pike"@.len() == 4 && "pike"@[0] == 'p' && "pike"@[1] == 'i',
        "dagger"@.len() == 6 && "dagger"@[0] == 'd' && "dagger"@[1] == 'a',
        "shield"@.len() == 6 && "shield"@[0] == 's' && "shield"@[1] == 'h',
        "bow"@.len() == 3 && "bow"@[0] == 'b' && "bow"@[1] == 'o',
        "longbow"@.len() == 7 && "longbow"@[0] == 'l' && "longbow"@[1] == 'o',
        "crossbow"@.len() == 8 && "crossbow"@[0] == 'c' && "crossbow"@[1] == 'r',
        "hand_crossbow"@.len() == 13 && "hand_crossbow"@[0] == 'h' && "hand_crossbow"@[1] == 'a',
        "throwing_knife"@.len() == 14 && "throwing_knife"@[0] == 't' && "throwing_knife"@[1] == 'h',
        "throwing_axe"@.len() == 12 && "throwing_axe"@[0] == 't' && "throwing_axe"@[1] == 'h',
        "javelin"@.len() == 7 && "javelin"@[0] == 'j' && "javelin"@[1] == 'a',
        "fire_staff"@.len() == 10 && "fire_staff"@[0] == 'f' && "fire_staff"@[1] == 'i',
        "ice_staff"@.len() == 9 && "ice_staff"@[0] == 'i' && "ice_staff"@[1] == 'c',
        "lightning_staff"@.len() == 15 && "lightning_staff"@[0] == 'l' && "lightning_staff"@[1] == 'i',
        "shadow_staff"@.len() == 12 && "shadow_staff"@[0] == 's' && "shadow_staff"@[1] == 'h',
        "nature_staff"@.len() == 12 && "nature_staff"@[0] == 'n' && "nature_staff"@[1] == 'a',
        "arcane_staff"@.len() == 12 && "arcane_staff"@[0] == 'a' && "arcane_staff"@[1] == 'r',
        "restoration_staff"@.len() == 17 && "restoration_staff"@[0] == 'r' && "restoration_staff"@[1] == 'e',
        "divination_staff"@.len() == 16 && "divination_staff"@[0] == 'd' && "divination_staff"@[1] == 'i',
        "magical_orb"@.len() == 11 && "magical_orb"@[0] == 'm' && "magical_orb"@[1] == 'a',
{
    reveal_strlit("sword");
    reveal_strlit("two_handed_sword");
    reveal_strlit("axe");
    reveal_strlit("two_handed_axe");
    reveal_strlit("mace");
    reveal_strlit("two_handed_mace");
    reveal_strlit("hammer");
    reveal_strlit("two_handed_hammer");
    reveal_strlit("spear");
    reveal_strlit("pike");
    reveal_strlit("dagger");
    reveal_strlit("shield");
    reveal_strlit("bow");
    reveal_strlit("longbow");
    reveal_strlit("crossbow");
    reveal_strlit("hand_crossbow");
    reveal_strlit("throwing_knife");
    reveal_strlit("throwing_axe");
    reveal_strlit("javelin");
    reveal_strlit("fire_staff");
    reveal_strlit("ice_staff");
    reveal_strlit("lightning_staff");
    reveal_strlit("shadow_staff");
    reveal_strlit("nature_staff");
    reveal_strlit("arcane_staff");
    reveal_strlit("restoration_staff");
    reveal_strlit("divination_staff");
    reveal_strlit("magical_orb");
}

/// Every weapon is found again from its own identifier.
pub proof fn lemma_weapon_id_round_trip(value: WeaponType)
    ensures
        weapon_from_id(weapon_id(value)) == Some(value),
{
    lemma_weapon_id_shapes();
}

/// An identifier that names a weapon is that weapon's own identifier.
pub proof fn lemma_weapon_from_id_sound(id: Seq<char>)
    ensures
        weapon_from_id(id) matches Some(value) ==> weapon_id(value) == id,
{
}

/// The kinds of damage a weapon or spell deals.
#[derive(Debug, Clone, Copy, PartialEq, Eq, Structural)]
pub enum DamageType {
    Slashing,
    Piercing,
    Bludgeoning,
    Fire,
    Ice,
    Lightning,
    Shadow,
    Nature,
    Arcane,
    Healing,
    Psychic,
    Holy,
    Necrotic,
}

/// The configuration identifier of a damage type.
pub open spec fn damage_type_id(value: DamageType) -> Seq<char> {
    match value {
        DamageType::Slashing => "slashing"@,
        DamageType::Piercing => "piercing"@,
        DamageType::Bludgeoning => "bludgeoning"@,
        DamageType::Fire => "fire"@,
        DamageType::Ice => "ice"@,
        DamageType::Lightning => "lightning"@,
        DamageType::Shadow => "shadow"@,
        DamageType::Nature => "nature"@,
        DamageType::Arcane => "arcane"@,
        DamageType::Healing => "healing"@,
        DamageType::Psychic => "psychic"@,
        DamageType::Holy => "holy"@,
        DamageType::Necrotic => "necrotic"@,
    }
}

/// The damage type that a configuration identifier names, if any.
pub open spec fn damage_type_from_id(id: Seq<char>) -> Option<DamageType> {
    if id == damage_type_id(DamageType::Slashing) {
        Some(DamageType::Slashing)
    } else if id == damage_type_id(DamageType::Piercing) {
        Some(DamageType::Piercing)
    } else if id == damage_type_id(DamageType::Bludgeoning) {
        Some(DamageType::Bludgeoning)
    } else if id == damage_type_id(DamageType::Fire) {
        Some(DamageType::Fire)
    } else if id == damage_type_id(DamageType::Ice) {
        Some(DamageType::Ice)
    } else if id == damage_type_id(DamageType::Lightning) {
        Some(DamageType::Lightning)
    } else if id == damage_type_id(DamageType::Shadow) {
        Some(DamageType::Shadow)
    } else if id == damage_type_id(DamageType::Nature) {
        Some(DamageType::Nature)
    } else if id == damage_type_id(DamageType::Arcane) {
        Some(DamageType::Arcane)
    } else if id == damage_type_id(DamageType::Healing) {
        Some(DamageType::Healing)
    } else if id == damage_type_id(DamageType::Psychic) {
        Some(DamageType::Psychic)
    } else if id == damage_type_id(DamageType::Holy) {
        Some(DamageType::Holy)
    } else if id == damage_type_id(DamageType::Necrotic) {
        Some(DamageType::Necrotic)
    } else {
        None
    }
}

/// The length and first characters of each damage type identifier, which
/// already tell any two of them apart.
proof fn lemma_damage_type_id_shapes()
    ensures
        "slashing"@.len() == 8 && "slashing"@[0] == 's',
        "piercing"@.len() == 8 && "piercing"@[0] == 'p',
        "bludgeoning"@.len() == 11 && "bludgeoning"@[0] == 'b',
        "fire"@.len() == 4 && "fire"@[0] == 'f',
        "ice"@.len() == 3 && "ice"@[0] == 'i',
        "lightning"@.len() == 9 && "lightning"@[0] == 'l',
        "shadow"@.len() == 6 && "shadow"@[0] == 's',
        "nature"@.len() == 6 && "nature"@[0] == 'n',
        "arcane"@.len() == 6 && "arcane"@[0] == 'a',
        "healing"@.len() == 7 && "healing"@[0] == 'h',
        "psychic"@.len() == 7 && "psychic"@[0] == 'p',
        "holy"@.len() == 4 && "holy"@[0] == 'h',
        "necrotic"@.len() == 8 && "necrotic"@[0] == 'n',
{
    reveal_strlit("slashing");
    reveal_strlit("piercing");
    reveal_strlit("bludgeoning");
    reveal_strlit("fire");
    reveal_strlit("ice");
    reveal_strlit("lightning");
    reveal_strlit("shadow");
    reveal_strlit("nature");
    reveal_strlit("arcane");
    reveal_strlit("healing");
    reveal_strlit("psychic");
    reveal_strlit("holy");
    reveal_strlit("necrotic");
}

/// Every damage type is found again from its own identifier.
pub proof fn lemma_damage_type_id_round_trip(value: DamageType)
    ensures
        damage_type_from_id(damage_type_id(value)) == Some(value),
{
    lemma_damage_type_id_shapes();
}

/// An identifier that names a damage type is that damage type's own identifier.
pub proof fn lemma_damage_type_from_id_sound(id: Seq<char>)
    ensures
        damage_type_from_id(id) matches Some(value) ==> damage_type_id(value) == id,
{
}

/// The configuration identifier of a role.
pub open spec fn role_id(value: RoleType) -> Seq<char> {
    match value {
        RoleType::Tank => "tank"@,
        RoleType::Healer => "healer"@,
        RoleType::DPS => "dps"@,
        RoleType::Support => "support"@,
        RoleType::Utility => "utility"@,
    }
}

/// The role that a configuration identifier names, if any.
pub open spec fn role_from_id(id: Seq<char>) -> Option<RoleType> {
    if id == role_id(RoleType::Tank) {
        Some(RoleType::Tank)
    } else if id == role_id(RoleType::Healer) {
        Some(RoleType::Healer)
    } else if id == role_id(RoleType::DPS) {
        Some(RoleType::DPS)
    } else if id == role_id(RoleType::Support) {
        Some(RoleType::Support)
    } else if id == role_id(RoleType::Utility) {
        Some(RoleType::Utility)
    } else {
        None
    }
}

/// The length and first characters of each role identifier, which
/// already tell any two of them apart.
proof fn lemma_role_id_shapes()
    ensures
        "tank"@.len() == 4 && "tank"@[0] == 't',
        "healer"@.len() == 6 && "healer"@[0] == 'h',
        "dps"@.len() == 3 && "dps"@[0] == 'd',
        "support"@.len() == 7 && "support"@[0] == 's',
        "utility"@.len() == 7 && "utility"@[0] == 'u',
{
    reveal_strlit("tank");
    reveal_strlit("healer");
    reveal_strlit("dps");
    reveal_strlit("support");
    reveal_strlit("utility");
}

/// Every role is found again from its own identifier.
pub proof fn lemma_role_id_round_trip(value: RoleType)
    ensures
        role_from_id(role_id(value)) == Some(value),
{
    lemma_role_id_shapes();
}

/// An identifier that names a role is that role's own identifier.
pub proof fn lemma_role_from_id_sound(id: Seq<char>)
    ensures
        role_from_id(id) matches Some(value) ==> role_id(value) == id,
{
}

/// The skills practised in a round of training, chosen by the suggested
/// primary role when that role is among the viable roles, and otherwise the
/// damage skills.
pub open spec fn practised_skills(suggested: RoleType, viable: Seq<RoleType>) -> Seq<SkillType> {
    if suggested == RoleType::Tank && viable.contains(RoleType::Tank) {
        seq![SkillType::Swordsmanship, SkillType::ShieldDefense, SkillType::HeavyArmor]
    } else if suggested == RoleType::Healer && viable.contains(RoleType::Healer) {
        seq![SkillType::Restoration, SkillType::LightArmor]
    } else if suggested == RoleType::Support && viable.contains(RoleType::Support) {
        seq![SkillType::Smithing, SkillType::Alchemy]
    } else if suggested == RoleType::Utility && viable.contains(RoleType::Utility) {
        seq![SkillType::Stealth, SkillType::Athletics]
    } else {
        seq![SkillType::FireMagic, SkillType::Archery]
    }
}

fn role_is_viable(viable: &Vec<RoleType>, role: RoleType) -> (found: bool)
    ensures
        found == viable@.contains(role),
{
    let mut i: usize = 0;
    while i < viable.len()
        invariant
            i <= viable@.len(),
            forall|j: int| 0 <= j < i ==> viable@[j] != role,
        decreases viable@.len() - i,
    {
        if viable[i] == role {
            assert(viable@[i as int] == role);
            return true;
        }
        i = i + 1;
    }
    false
}

/// The skills to practise in a round of training, in order: see
/// `practised_skills`.
pub fn skills_to_practice(suggested: RoleType, viable: &Vec<RoleType>) -> (skills: Vec<SkillType>)
    ensures
        skills@ == practised_skills(suggested, viable@),
{
    let skills = match suggested {
        RoleType::Tank if role_is_viable(viable, RoleType::Tank) => vec![
            SkillType::Swordsmanship,
            SkillType::ShieldDefense,
            SkillType::HeavyArmor,
        ],
        RoleType::Healer if role_is_viable(viable, RoleType::Healer) => vec![
            SkillType::Restoration,
            SkillType::LightArmor,
        ],
        RoleType::Support if role_is_viable(viable, RoleType::Support) => vec![
            SkillType::Smithing,
            SkillType::Alchemy,
        ],
        RoleType::Utility if role_is_viable(viable, RoleType::Utility) => vec![
            SkillType::Stealth,
            SkillType::Athletics,
        ],
        _ => vec![SkillType::FireMagic, SkillType::Archery],
    };
    assert(skills@ =~= practised_skills(suggested, viable@));
    skills
}

/// What a round of training practises: a viable suggested role other than
/// damage gets its own skills (tank: swordsmanship, shield defense, heavy
/// armor; healer: restoration, light armor; support: smithing, alchemy;
/// utility: stealth, athletics), none of which is a damage skill, and no two
/// such roles share a skill; a damage suggestion, or one that is not viable,
/// falls back to fire magic and archery. The choice depends on the viable
/// roles only through whether the suggested role is among them.
pub proof fn lemma_practised_skills_follow_suggested_role(
    suggested: RoleType,
    other: RoleType,
    viable: Seq<RoleType>,
    viable2: Seq<RoleType>,
)
    ensures
        (suggested == RoleType::DPS || !viable.contains(suggested)) ==> practised_skills(
            suggested,
            viable,
        ) == seq![SkillType::FireMagic, SkillType::Archery],
        viable.contains(RoleType::Tank) ==> practised_skills(RoleType::Tank, viable) == seq![
            SkillType::Swordsmanship,
            SkillType::ShieldDefense,
            SkillType::HeavyArmor,
        ],
        viable.contains(RoleType::Healer) ==> practised_skills(RoleType::Healer, viable) == seq![
            SkillType::Restoration,
            SkillType::LightArmor,
        ],
        viable.contains(RoleType::Support) ==> practised_skills(RoleType::Support, viable) == seq![
            SkillType::Smithing,
            SkillType::Alchemy,
        ],
        viable.contains(RoleType::Utility) ==> practised_skills(RoleType::Utility, viable) == seq![
            SkillType::Stealth,
            SkillType::Athletics,
        ],
        (suggested != RoleType::DPS && viable.contains(suggested)) ==> {
            &&& !practised_skills(suggested, viable).contains(SkillType::FireMagic)
            &&& !practised_skills(suggested, viable).contains(SkillType::Archery)
        },
        (suggested != RoleType::DPS && viable.contains(suggested) && other != RoleType::DPS
            && viable.contains(other) && other != suggested) ==> forall|k: int|
            0 <= k < practised_skills(suggested, viable).len() ==> !practised_skills(
                other,
                viable,
            ).contains(#[trigger] practised_skills(suggested, viable)[k]),
        viable.contains(suggested) == viable2.contains(suggested) ==> practised_skills(
            suggested,
            viable,
        ) == practised_skills(suggested, viable2),
{
    let p = practised_skills(suggested, viable);
    let q = practised_skills(other, viable);
    if suggested != RoleType::DPS && viable.contains(suggested) {
        assert(!p.contains(SkillType::FireMagic)) by {
            if p.contains(SkillType::FireMagic) {
                let k = choose|k: int| 0 <= k < p.len() && p[k] == SkillType::FireMagic;
            }
        }
        assert(!p.contains(SkillType::Archery)) by {
            if p.contains(SkillType::Archery) {
                let k = choose|k: int| 0 <= k < p.len() && p[k] == SkillType::Archery;
            }
        }
        if other != RoleType::DPS && viable.contains(other) && other != suggested {
            assert forall|k: int| 0 <= k < p.len() implies !q.contains(#[trigger] p[k]) by {
                if q.contains(p[k]) {
                    let j = choose|j: int| 0 <= j < q.len() && q[j] == p[k];
                }
            }
        }
    }
}

/// Skill levels in order from highest to lowest level.
pub open spec fn ranked_by_level(levels: Seq<(SkillType, u32)>) -> bool {
    forall|i: int, j: int| 0 <= i < j < levels.len() ==> levels[i].1 >= levels[j].1
}

/// `ranked` rearranges `levels`, entry `k` of `ranked` being entry
/// `origin[k]` of `levels`, and entries of equal level keep the order they
/// had in `levels`.
pub open spec fn stable_rearrangement(
    ranked: Seq<(SkillType, u32)>,
    levels: Seq<(SkillType, u32)>,
    origin: Seq<int>,
) -> bool {
    &&& origin.len() == ranked.len()
    &&& ranked.len() == levels.len()
    &&& forall|k: int|
        0 <= k < ranked.len() ==> 0 <= #[trigger] origin[k] < levels.len() && ranked[k]
            == levels[origin[k]]
    &&& forall|a: int, b: int| 0 <= a < b < ranked.len() ==> origin[a] != origin[b]
    &&& forall|a: int, b: int|
        0 <= a < b < ranked.len() && ranked[a].1 == ranked[b].1 ==> origin[a] < origin[b]
}

/// The skills with their levels, reordered from highest to lowest level
/// (for the skill overview, which shows the top of this list); skills of
/// equal level keep their order.
pub fn rank_skills_by_level(levels: &Vec<(SkillType, u32)>) -> (ranked: Vec<(SkillType, u32)>)
    ensures
        ranked_by_level(ranked@),
        exists|origin: Seq<int>| stable_rearrangement(ranked@, levels@, origin),
        ranked@.to_multiset() == levels@.to_multiset(),
{
    broadcast use vstd::seq_lib::group_to_multiset_ensures;

    let mut ranked: Vec<(SkillType, u32)> = Vec::new();
    let ghost mut origin: Seq<int> = Seq::empty();
    proof {
        assert(levels@.take(0) =~= Seq::<(SkillType, u32)>::empty());
        assert(ranked@ =~= Seq::<(SkillType, u32)>::empty());
    }
    let n = levels.len();
    let mut i: usize = 0;
    while i < n
        invariant
            n == levels@.len(),
            i <= n,
            ranked_by_level(ranked@),
            stable_rearrangement(ranked@, levels@.take(i as int), origin),
            ranked@.to_multiset() == levels@.take(i as int).to_multiset(),
        decreases n - i,
    {
        let entry = levels[i];
        // the first position whose level is below the entry's
        let mut p: usize = 0;
        while p < ranked.len() && ranked[p].1 >= entry.1
            invariant
                p <= ranked@.len(),
                forall|k: int| 0 <= k < p ==> ranked@[k].1 >= entry.1,
            decreases ranked@.len() - p,
        {
            p = p + 1;
        }
        let ghost before = ranked@;
        let ghost origin_before = origin;
        ranked.insert(p, entry);
        proof {
            before.insert_ensures(p as int, entry);
            origin_before.insert_ensures(p as int, i as int);
            origin = origin_before.insert(p as int, i as int);
            let taken = levels@.take(i + 1);
            assert(taken =~= levels@.take(i as int).push(entry));
            vstd::seq_lib::to_multiset_insert(before, p as int, entry);
            vstd::seq_lib::to_multiset_build(levels@.take(i as int), entry);
            assert(ranked@.to_multiset() == taken.to_multiset());
            assert forall|a: int, b: int| 0 <= a < b < ranked@.len() implies ranked@[a].1
                >= ranked@[b].1 by {
                if b < p as int {
                    assert(ranked@[a] == before[a] && ranked@[b] == before[b]);
                } else if a < p as int && b == p as int {
                } else if a < p as int && b > p as int {
                    assert(ranked@[b] == before[b - 1]);
                } else if a == p as int {
                    assert(ranked@[b] == before[b - 1]);
                    if (p as int) < before.len() {
                        assert(before[p as int].1 < entry.1);
                    }
                } else {
                    assert(ranked@[b] == before[b - 1]);
                    assert(ranked@[a] == before[a - 1]);
                }
            }
            assert forall|k: int| 0 <= k < ranked@.len() implies 0 <= #[trigger] origin[k]
                < taken.len() && ranked@[k] == taken[origin[k]] by {
                if k < p as int {
                    assert(origin[k] == origin_before[k]);
                    assert(ranked@[k] == before[k]);
                } else if k == p as int {
                } else {
                    assert(origin[k] == origin_before[k - 1]);
                    assert(ranked@[k] == before[k - 1]);
                }
            }
            assert forall|a: int, b: int| 0 <= a < b < ranked@.len() implies origin[a]
                != origin[b] by {
                if a != p as int && b != p as int {
                    let a0 = if a < p as int { a } else { a - 1 };
                    let b0 = if b < p as int { b } else { b - 1 };
                    assert(origin[a] == origin_before[a0]);
                    assert(origin[b] == origin_before[b0]);
                } else if a == p as int {
                    assert(origin[b] == origin_before[b - 1]);
                } else {
                    let a0 = if a < p as int { a } else { a - 1 };
                    assert(origin[a] == origin_before[a0]);
                }
            }
            assert forall|a: int, b: int|
                0 <= a < b < ranked@.len() && ranked@[a].1 == ranked@[b].1 implies origin[a]
                < origin[b] by {
                if a != p as int && b != p as int {
                    let a0 = if a < p as int { a } else { a - 1 };
                    let b0 = if b < p as int { b } else { b - 1 };
                    assert(origin[a] == origin_before[a0]);
                    assert(origin[b] == origin_before[b0]);
                    assert(ranked@[a] == before[a0]);
                    assert(ranked@[b] == before[b0]);
                } else if a == p as int {
                    // every entry after the new one has a lower level
                    assert(ranked@[b] == before[b - 1]);
                    assert(before[p as int].1 < entry.1) by {
                        assert(ranked@[p as int + 1] == before[p as int]);
                    }
                    assert(before[p as int].1 >= before[b - 1].1);
                } else {
                    let a0 = if a < p as int { a } else { a - 1 };
                    assert(origin[a] == origin_before[a0]);
                }
            }
        }
        i = i + 1;
    }
    proof {
        assert(levels@.take(n as int) =~= levels@);
    }
    ranked
}

/// Lowercase snake_case: lowercase letters joined by single underscores,
/// starting and ending with a letter.
pub open spec fn is_snake_case(id: Seq<char>) -> bool {
    &&& id.len() > 0
    &&& 'a' <= id[0] <= 'z'
    &&& 'a' <= id.last() <= 'z'
    &&& forall|i: int| 0 <= i < id.len() ==> ('a' <= #[trigger] id[i] <= 'z' || id[i] == '_')
    &&& forall|i: int| 0 <= i < id.len() - 1 && #[trigger] id[i] == '_' ==> id[i + 1] != '_'
}

/// Every skill identifier is lowercase snake_case.
pub proof fn lemma_skill_ids_snake_case(value: SkillType)
    ensures
        is_snake_case(skill_id(value)),
{
    match value {
        SkillType::Swordsmanship => reveal_strlit("swordsmanship"),
        SkillType::AxeMastery => reveal_strlit("axe_mastery"),
        SkillType::MaceSkill => reveal_strlit("mace_skill"),
        SkillType::HammerSkill => reveal_strlit("hammer_skill"),
        SkillType::SpearMastery => reveal_strlit("spear_mastery"),
        SkillType::DaggerMastery => reveal_strlit("dagger_mastery"),
        SkillType::ShieldDefense => reveal_strlit("shield_defense"),
        SkillType::Archery => reveal_strlit("archery"),
        SkillType::Crossbow => reveal_strlit("crossbow"),
        SkillType::ThrowingWeapons => reveal_strlit("throwing_weapons"),
        SkillType::FireMagic => reveal_strlit("fire_magic"),
        SkillType::IceMagic => reveal_strlit("ice_magic"),
        SkillType::LightningMagic => reveal_strlit("lightning_magic"),
        SkillType::ShadowMagic => reveal_strlit("shadow_magic"),
        SkillType::NatureMagic => reveal_strlit("nature_magic"),
        SkillType::ArcanieMagic => reveal_strlit("arcane_magic"),
        SkillType::Restoration => reveal_strlit("restoration"),
        SkillType::Divination => reveal_strlit("divination"),
        SkillType::HeavyArmor => reveal_strlit("heavy_armor"),
        SkillType::MediumArmor => reveal_strlit("medium_armor"),
        SkillType::LightArmor => reveal_strlit("light_armor"),
        SkillType::Smithing => reveal_strlit("smithing"),
        SkillType::Alchemy => reveal_strlit("alchemy"),
        SkillType::Enchanting => reveal_strlit("enchanting"),
        SkillType::Cooking => reveal_strlit("cooking"),
        SkillType::Athletics => reveal_strlit("athletics"),
        SkillType::Stealth => reveal_strlit("stealth"),
        SkillType::Lockpicking => reveal_strlit("lockpicking"),
        SkillType::Pickpocketing => reveal_strlit("pickpocketing"),
    }
}

/// Every weapon identifier is lowercase snake_case.
pub proof fn lemma_weapon_ids_snake_case(value: WeaponType)
    ensures
        is_snake_case(weapon_id(value)),
{
    match value {
        WeaponType::Sword => reveal_strlit("sword"),
        WeaponType::TwoHandedSword => reveal_strlit("two_handed_sword"),
        WeaponType::Axe => reveal_strlit("axe"),
        WeaponType::TwoHandedAxe => reveal_strlit("two_handed_axe"),
        WeaponType::Mace => reveal_strlit("mace"),
        WeaponType::TwoHandedMace => reveal_strlit("two_handed_mace"),
        WeaponType::Hammer => reveal_strlit("hammer"),
        WeaponType::TwoHandedHammer => reveal_strlit("two_handed_hammer"),
        WeaponType::Spear => reveal_strlit("spear"),
        WeaponType::Pike => reveal_strlit("pike"),
        WeaponType::Dagger => reveal_strlit("dagger"),
        WeaponType::Shield => reveal_strlit("shield"),
        WeaponType::Bow => reveal_strlit("bow"),
        WeaponType::Longbow => reveal_strlit("longbow"),
        WeaponType::Crossbow => reveal_strlit("crossbow"),
        WeaponType::HandCrossbow => reveal_strlit("hand_crossbow"),
        WeaponType::ThrowingKnife => reveal_strlit("throwing_knife"),
        WeaponType::ThrowingAxe => reveal_strlit("throwing_axe"),
        WeaponType::Javelin => reveal_strlit("javelin"),
        WeaponType::FireStaff => reveal_strlit("fire_staff"),
        WeaponType::IceStaff => reveal_strlit("ice_staff"),
        WeaponType::LightningStaff => reveal_strlit("lightning_staff"),
        WeaponType::ShadowStaff => reveal_strlit("shadow_staff"),
        WeaponType::NatureStaff => reveal_strlit("nature_staff"),
        WeaponType::ArcaneStaff => reveal_strlit("arcane_staff"),
        WeaponType::RestorationStaff => reveal_strlit("restoration_staff"),
        WeaponType::DivinationStaff => reveal_strlit("divination_staff"),
        WeaponType::MagicalOrb => reveal_strlit("magical_orb"),
    }
}

/// Every damage type identifier is lowercase snake_case.
pub proof fn lemma_damage_type_ids_snake_case(value: DamageType)
    ensures
        is_snake_case(damage_type_id(value)),
{
    match value {
        DamageType::Slashing => reveal_strlit("slashing"),
        DamageType::Piercing => reveal_strlit("piercing"),
        DamageType::Bludgeoning => reveal_strlit("bludgeoning"),
        DamageType::Fire => reveal_strlit("fire"),
        DamageType::Ice => reveal_strlit("ice"),
        DamageType::Lightning => reveal_strlit("lightning"),
        DamageType::Shadow => reveal_strlit("shadow"),
        DamageType::Nature => reveal_strlit("nature"),
        DamageType::Arcane => reveal_strlit("arcane"),
        DamageType::Healing => reveal_strlit("healing"),
        DamageType::Psychic => reveal_strlit("psychic"),
        DamageType::Holy => reveal_strlit("holy"),
        DamageType::Necrotic => reveal_strlit("necrotic"),
    }
}

/// Every role identifier is lowercase snake_case.
pub proof fn lemma_role_ids_snake_case(value: RoleType)
    ensures
        is_snake_case(role_id(value)),
{
    match value {
        RoleType::Tank => reveal_strlit("tank"),
        RoleType::Healer => reveal_strlit("healer"),
        RoleType::DPS => reveal_strlit("dps"),
        RoleType::Support => reveal_strlit("support"),
        RoleType::Utility => reveal_strlit("utility"),
    }
}

} // verus!
