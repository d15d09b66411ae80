//! The progression configuration: its entries, the identifiers that name
//! them, lookups by kind, and the checks that a configuration must pass.
use vstd::prelude::*;
use crate::roles::RoleType;
use crate::skills::{
    lemma_weapon_from_id_sound, lemma_skill_ids_snake_case, lemma_weapon_ids_snake_case,
    lemma_damage_type_ids_snake_case, is_snake_case,
    damage_type_from_id, damage_type_id, role_from_id, skill_from_id, skill_id,
    weapon_from_id, weapon_id, DamageType, SkillType, WeaponType,
};
use crate::text::str_eq;

verus! {

/// The progression configuration: the skills, weapons, damage types and roles
/// that the game's data files define, each under its identifier.
pub struct ProgressionConfig {
    pub skills: Vec<SkillConfig>,
    pub weapons: Vec<WeaponConfig>,
    pub damage_types: Vec<DamageTypeConfig>,
    pub roles: Vec<RoleConfig>,
}

/// A configured skill.
pub struct SkillConfig {
    pub id: String,
    pub display_name: String,
    pub max_level: u32,
    pub associated_weapons: Vec<String>,
}

/// A configured weapon. Its base damage and attack speed enter the checks
/// only through whether each is above zero.
pub struct WeaponConfig {
    pub id: String,
    pub display_name: String,
    pub associated_skill: String,
    pub damage_type: String,
    pub base_damage_positive: bool,
    pub attack_speed_positive: bool,
}

/// A configured damage type.
pub struct DamageTypeConfig {
    pub id: String,
    pub display_name: String,
}

/// A configured role.
pub struct RoleConfig {
    pub id: String,
    pub display_name: String,
    pub primary_skills: Vec<String>,
    pub secondary_skills: Vec<String>,
    pub recommended_weapons: Vec<String>,
}

/// A problem found in a progression configuration.
#[derive(Debug)]
pub enum ConfigIssue {
    SkillEmptyName { skill: String },
    SkillInvalidMaxLevel { skill: String, max_level: u32 },
    SkillUnknownWeapon { skill: String, weapon: String },
    WeaponEmptyName { weapon: String },
    WeaponUnknownSkill { weapon: String, skill: String },
    WeaponUnknownDamageType { weapon: String, damage_type: String },
    WeaponInvalidBaseDamage { weapon: String },
    WeaponInvalidAttackSpeed { weapon: String },
    RoleEmptyName { role: String },
    RoleUnknownPrimarySkill { role: String, skill: String },
    RoleUnknownSecondarySkill { role: String, skill: String },
    RoleUnknownRecommendedWeapon { role: String, weapon: String },
}

/// The outcome of checking a progression configuration: warnings are
/// suspicious values, errors are references to identifiers that the
/// configuration does not define.
pub struct ValidationReport {
    pub warnings: Vec<ConfigIssue>,
    pub errors: Vec<ConfigIssue>,
}

/// Whether a maximum skill level lies outside 1..=100.
pub open spec fn invalid_max_level(max_level: u32) -> bool {
    max_level == 0 || max_level > 100
}

/// A list of identifiers through which a configuration entry refers to other
/// entries.
#[derive(Debug, Clone, Copy, PartialEq, Eq, Structural)]
pub enum Reference {
    /// A skill's associated weapons.
    SkillWeapon,
    /// A role's primary skills.
    RolePrimarySkill,
    /// A role's secondary skills.
    RoleSecondarySkill,
    /// A role's recommended weapons.
    RoleWeapon,
}

/// The error for entry `owner` referring through `reference` to `target`,
/// which is not configured.
pub open spec fn dangling_issue(reference: Reference, owner: String, target: String) -> ConfigIssue {
    match reference {
        Reference::SkillWeapon => ConfigIssue::SkillUnknownWeapon { skill: owner, weapon: target },
        Reference::RolePrimarySkill => ConfigIssue::RoleUnknownPrimarySkill {
            role: owner,
            skill: target,
        },
        Reference::RoleSecondarySkill => ConfigIssue::RoleUnknownSecondarySkill {
            role: owner,
            skill: target,
        },
        Reference::RoleWeapon => ConfigIssue::RoleUnknownRecommendedWeapon {
            role: owner,
            weapon: target,
        },
    }
}

impl ProgressionConfig {
    /// No two entries of the same kind share an identifier, as in the game's
    /// data files, where each kind of entry is a map keyed by identifier.
    pub open spec fn ids_unique(self) -> bool {
        &&& forall|i: int, j: int|
            0 <= i < j < self.skills@.len() ==> self.skills@[i].id@ != self.skills@[j].id@
        &&& forall|i: int, j: int|
            0 <= i < j < self.weapons@.len() ==> self.weapons@[i].id@ != self.weapons@[j].id@
        &&& forall|i: int, j: int|
            0 <= i < j < self.damage_types@.len() ==> self.damage_types@[i].id@
                != self.damage_types@[j].id@
        &&& forall|i: int, j: int|
            0 <= i < j < self.roles@.len() ==> self.roles@[i].id@ != self.roles@[j].id@
    }

    /// A skill with identifier `id` is configured.
    pub open spec fn has_skill(self, id: Seq<char>) -> bool {
        exists|i: int| 0 <= i < self.skills@.len() && #[trigger] self.skills@[i].id@ == id
    }

    /// A weapon with identifier `id` is configured.
    pub open spec fn has_weapon(self, id: Seq<char>) -> bool {
        exists|i: int| 0 <= i < self.weapons@.len() && #[trigger] self.weapons@[i].id@ == id
    }

    /// The configuration of the first weapon with identifier `id`, if any.
    pub open spec fn weapon_lookup(self, id: Seq<char>) -> Option<WeaponConfig> {
        let k = first_weapon_index(self.weapons@, id, 0);
        if k >= 0 {
            Some(self.weapons@[k])
        } else {
            None
        }
    }

    /// A damage type with identifier `id` is configured.
    pub open spec fn has_damage_type(self, id: Seq<char>) -> bool {
        exists|i: int|
            0 <= i < self.damage_types@.len() && #[trigger] self.damage_types@[i].id@ == id
    }


    /// Whether `id` names an entry of the kind that `reference` points to.
    pub open spec fn resolves(self, reference: Reference, id: Seq<char>) -> bool {
        match reference {
            Reference::SkillWeapon | Reference::RoleWeapon => self.has_weapon(id),
            Reference::RolePrimarySkill | Reference::RoleSecondarySkill => self.has_skill(id),
        }
    }

    /// The errors for those of `refs` that do not resolve, in the order of `refs`.
    pub open spec fn dangling_references(
        self,
        reference: Reference,
        owner: String,
        refs: Seq<String>,
    ) -> Seq<ConfigIssue>
        decreases refs.len(),
    {
        if refs.len() == 0 {
            Seq::empty()
        } else {
            self.dangling_references(reference, owner, refs.drop_last()) + (if self.resolves(
                reference,
                refs.last()@,
            ) {
                Seq::empty()
            } else {
                seq![dangling_issue(reference, owner, refs.last())]
            })
        }
    }

    /// Warnings about one skill.
    pub open spec fn skill_warnings(skill: SkillConfig) -> Seq<ConfigIssue> {
        (if skill.display_name@.len() == 0 {
            seq![ConfigIssue::SkillEmptyName { skill: skill.id }]
        } else {
            Seq::empty()
        }) + (if invalid_max_level(skill.max_level) {
            seq![ConfigIssue::SkillInvalidMaxLevel { skill: skill.id, max_level: skill.max_level }]
        } else {
            Seq::empty()
        })
    }

    /// Errors about one skill: the weapons it names that are not configured.
    pub open spec fn skill_errors(self, skill: SkillConfig) -> Seq<ConfigIssue> {
        self.dangling_references(Reference::SkillWeapon, skill.id, skill.associated_weapons@)
    }

    /// Warnings about one weapon.
    pub open spec fn weapon_warnings(weapon: WeaponConfig) -> Seq<ConfigIssue> {
        (if weapon.display_name@.len() == 0 {
            seq![ConfigIssue::WeaponEmptyName { weapon: weapon.id }]
        } else {
            Seq::empty()
        }) + (if !weapon.base_damage_positive {
            seq![ConfigIssue::WeaponInvalidBaseDamage { weapon: weapon.id }]
        } else {
            Seq::empty()
        }) + (if !weapon.attack_speed_positive {
            seq![ConfigIssue::WeaponInvalidAttackSpeed { weapon: weapon.id }]
        } else {
            Seq::empty()
        })
    }

    /// Errors about one weapon: its skill and its damage type, where not configured.
    pub open spec fn weapon_errors(self, weapon: WeaponConfig) -> Seq<ConfigIssue> {
        (if self.has_skill(weapon.associated_skill@) {
            Seq::empty()
        } else {
            seq![ConfigIssue::WeaponUnknownSkill { weapon: weapon.id, skill: weapon.associated_skill }]
        }) + (if self.has_damage_type(weapon.damage_type@) {
            Seq::empty()
        } else {
            seq![
                ConfigIssue::WeaponUnknownDamageType {
                    weapon: weapon.id,
                    damage_type: weapon.damage_type,
                },
            ]
        })
    }

    /// Warnings about one role.
    pub open spec fn role_warnings(role: RoleConfig) -> Seq<ConfigIssue> {
        if role.display_name@.len() == 0 {
            seq![ConfigIssue::RoleEmptyName { role: role.id }]
        } else {
            Seq::empty()
        }
    }

    /// Errors about one role: the skills and weapons it names that are not configured.
    pub open spec fn role_errors(self, role: RoleConfig) -> Seq<ConfigIssue> {
        self.dangling_references(Reference::RolePrimarySkill, role.id, role.primary_skills@)
            + self.dangling_references(Reference::RoleSecondarySkill, role.id, role.secondary_skills@)
            + self.dangling_references(Reference::RoleWeapon, role.id, role.recommended_weapons@)
    }

    /// All warnings: those of the skills, then of the weapons, then of the roles.
    pub open spec fn spec_warnings(self) -> Seq<ConfigIssue> {
        self.skills@.map_values(|s: SkillConfig| Self::skill_warnings(s)).flatten()
            + self.weapons@.map_values(|w: WeaponConfig| Self::weapon_warnings(w)).flatten()
            + self.roles@.map_values(|r: RoleConfig| Self::role_warnings(r)).flatten()
    }

    /// All errors: those of the skills, then of the weapons, then of the roles.
    pub open spec fn spec_errors(self) -> Seq<ConfigIssue> {
        self.skills@.map_values(|s: SkillConfig| self.skill_errors(s)).flatten()
            + self.weapons@.map_values(|w: WeaponConfig| self.weapon_errors(w)).flatten()
            + self.roles@.map_values(|r: RoleConfig| self.role_errors(r)).flatten()
    }
}

impl ProgressionConfig {
    /// The skill that the identifier `skill_id` names, if any.
    pub fn skill_id_to_enum(&self, skill_id: &str) -> (found: Option<SkillType>)
        ensures
            found == skill_from_id(skill_id@),
    {
        if str_eq(skill_id, "swordsmanship") {
            return Some(SkillType::Swordsmanship);
        }
        if str_eq(skill_id, "axe_mastery") {
            return Some(SkillType::AxeMastery);
        }
        if str_eq(skill_id, "mace_skill") {
            return Some(SkillType::MaceSkill);
        }
        if str_eq(skill_id, "hammer_skill") {
            return Some(SkillType::HammerSkill);
        }
        if str_eq(skill_id, "spear_mastery") {
            return Some(SkillType::SpearMastery);
        }
        if str_eq(skill_id, "dagger_mastery") {
            return Some(SkillType::DaggerMastery);
        }
        if str_eq(skill_id, "shield_defense") {
            return Some(SkillType::ShieldDefense);
        }
        if str_eq(skill_id, "archery") {
            return Some(SkillType::Archery);
        }
        if str_eq(skill_id, "crossbow") {
            return Some(SkillType::Crossbow);
        }
        if str_eq(skill_id, "throwing_weapons") {
            return Some(SkillType::ThrowingWeapons);
        }
        if str_eq(skill_id, "fire_magic") {
            return Some(SkillType::FireMagic);
        }
        if str_eq(skill_id, "ice_magic") {
            return Some(SkillType::IceMagic);
        }
        if str_eq(skill_id, "lightning_magic") {
            return Some(SkillType::LightningMagic);
        }
        if str_eq(skill_id, "shadow_magic") {
            return Some(SkillType::ShadowMagic);
        }
        if str_eq(skill_id, "nature_magic") {
            return Some(SkillType::NatureMagic);
        }
        if str_eq(skill_id, "arcane_magic") {
            return Some(SkillType::ArcanieMagic);
        }
        if str_eq(skill_id, "restoration") {
            return Some(SkillType::Restoration);
        }
        if str_eq(skill_id, "divination") {
            return Some(SkillType::Divination);
        }
        if str_eq(skill_id, "heavy_armor") {
            return Some(SkillType::HeavyArmor);
        }
        if str_eq(skill_id, "medium_armor") {
            return Some(SkillType::MediumArmor);
        }
        if str_eq(skill_id, "light_armor") {
            return Some(SkillType::LightArmor);
        }
        if str_eq(skill_id, "smithing") {
            return Some(SkillType::Smithing);
        }
        if str_eq(skill_id, "alchemy") {
            return Some(SkillType::Alchemy);
        }
        if str_eq(skill_id, "enchanting") {
            return Some(SkillType::Enchanting);
        }
        if str_eq(skill_id, "cooking") {
            return Some(SkillType::Cooking);
        }
        if str_eq(skill_id, "athletics") {
            return Some(SkillType::Athletics);
        }
        if str_eq(skill_id, "stealth") {
            return Some(SkillType::Stealth);
        }
        if str_eq(skill_id, "lockpicking") {
            return Some(SkillType::Lockpicking);
        }
        if str_eq(skill_id, "pickpocketing") {
            return Some(SkillType::Pickpocketing);
        }
        None
    }

    /// The configuration identifier of a skill.
    pub fn skill_enum_to_id(&self, skill_type: SkillType) -> (id: &'static str)
        ensures
            id@ == skill_id(skill_type),
            is_snake_case(id@),
    {
        proof {
            lemma_skill_ids_snake_case(skill_type);
        }
        match skill_type {
            SkillType::Swordsmanship => "swordsmanship",
            SkillType::AxeMastery => "axe_mastery",
            SkillType::MaceSkill => "mace_skill",
            SkillType::HammerSkill => "hammer_skill",
            SkillType::SpearMastery => "spear_mastery",
            SkillType::DaggerMastery => "dagger_mastery",
            SkillType::ShieldDefense => "shield_defense",
            SkillType::Archery => "archery",
            SkillType::Crossbow => "crossbow",
            SkillType::ThrowingWeapons => "throwing_weapons",
            SkillType::FireMagic => "fire_magic",
            SkillType::IceMagic => "ice_magic",
            SkillType::LightningMagic => "lightning_magic",
            SkillType::ShadowMagic => "shadow_magic",
            SkillType::NatureMagic => "nature_magic",
            SkillType::ArcanieMagic => "arcane_magic",
            SkillType::Restoration => "restoration",
            SkillType::Divination => "divination",
            SkillType::HeavyArmor => "heavy_armor",
            SkillType::MediumArmor => "medium_armor",
            SkillType::LightArmor => "light_armor",
            SkillType::Smithing => "smithing",
            SkillType::Alchemy => "alchemy",
            SkillType::Enchanting => "enchanting",
            SkillType::Cooking => "cooking",
            SkillType::Athletics => "athletics",
            SkillType::Stealth => "stealth",
            SkillType::Lockpicking => "lockpicking",
            SkillType::Pickpocketing => "pickpocketing",
        }
    }

    /// The weapon that the identifier `weapon_id` names, if any.
    pub fn weapon_id_to_enum(&self, weapon_id: &str) -> (found: Option<WeaponType>)
        ensures
            found == weapon_from_id(weapon_id@),
    {
        if str_eq(weapon_id, "sword") {
            return Some(WeaponType::Sword);
        }
        if str_eq(weapon_id, "two_handed_sword") {
            return Some(WeaponType::TwoHandedSword);
        }
        if str_eq(weapon_id, "axe") {
            return Some(WeaponType::Axe);
        }
        if str_eq(weapon_id, "two_handed_axe") {
            return Some(WeaponType::TwoHandedAxe);
        }
        if str_eq(weapon_id, "mace") {
            return Some(WeaponType::Mace);
        }
        if str_eq(weapon_id, "two_handed_mace") {
            return Some(WeaponType::TwoHandedMace);
        }
        if str_eq(weapon_id, "hammer") {
            return Some(WeaponType::Hammer);
        }
        if str_eq(weapon_id, "two_handed_hammer") {
            return Some(WeaponType::TwoHandedHammer);
        }
        if str_eq(weapon_id, "spear") {
            return Some(WeaponType::Spear);
        }
        if str_eq(weapon_id, "pike") {
            return Some(WeaponType::Pike);
        }
        if str_eq(weapon_id, "dagger") {
            return Some(WeaponType::Dagger);
        }
        if str_eq(weapon_id, "shield") {
            return Some(WeaponType::Shield);
        }
        if str_eq(weapon_id, "bow") {
            return Some(WeaponType::Bow);
        }
        if str_eq(weapon_id, "longbow") {
            return Some(WeaponType::Longbow);
        }
        if str_eq(weapon_id, "crossbow") {
            return Some(WeaponType::Crossbow);
        }
        if str_eq(weapon_id, "hand_crossbow") {
            return Some(WeaponType::HandCrossbow);
        }
        if str_eq(weapon_id, "throwing_knife") {
            return Some(WeaponType::ThrowingKnife);
        }
        if str_eq(weapon_id, "throwing_axe") {
            return Some(WeaponType::ThrowingAxe);
        }
        if str_eq(weapon_id, "javelin") {
            return Some(WeaponType::Javelin);
        }
        if str_eq(weapon_id, "fire_staff") {
            return Some(WeaponType::FireStaff);
        }
        if str_eq(weapon_id, "ice_staff") {
            return Some(WeaponType::IceStaff);
        }
        if str_eq(weapon_id, "lightning_staff") {
            return Some(WeaponType::LightningStaff);
        }
        if str_eq(weapon_id, "shadow_staff") {
            return Some(WeaponType::ShadowStaff);
        }
        if str_eq(weapon_id, "nature_staff") {
            return Some(WeaponType::NatureStaff);
        }
        if str_eq(weapon_id, "arcane_staff") {
            return Some(WeaponType::ArcaneStaff);
        }
        if str_eq(weapon_id, "restoration_staff") {
            return Some(WeaponType::RestorationStaff);
        }
        if str_eq(weapon_id, "divination_staff") {
            return Some(WeaponType::DivinationStaff);
        }
        if str_eq(weapon_id, "magical_orb") {
            return Some(WeaponType::MagicalOrb);
        }
        None
    }

    /// The configuration identifier of a weapon.
    pub fn weapon_enum_to_id(&self, weapon_type: WeaponType) -> (id: &'static str)
        ensures
            id@ == weapon_id(weapon_type),
            is_snake_case(id@),
    {
        proof {
            lemma_weapon_ids_snake_case(weapon_type);
        }
        match weapon_type {
            WeaponType::Sword => "sword",
            WeaponType::TwoHandedSword => "two_handed_sword",
            WeaponType::Axe => "axe",
            WeaponType::TwoHandedAxe => "two_handed_axe",
            WeaponType::Mace => "mace",
            WeaponType::TwoHandedMace => "two_handed_mace",
            WeaponType::Hammer => "hammer",
            WeaponType::TwoHandedHammer => "two_handed_hammer",
            WeaponType::Spear => "spear",
            WeaponType::Pike => "pike",
            WeaponType::Dagger => "dagger",
            WeaponType::Shield => "shield",
            WeaponType::Bow => "bow",
            WeaponType::Longbow => "longbow",
            WeaponType::Crossbow => "crossbow",
            WeaponType::HandCrossbow => "hand_crossbow",
            WeaponType::ThrowingKnife => "throwing_knife",
            WeaponType::ThrowingAxe => "throwing_axe",
            WeaponType::Javelin => "javelin",
            WeaponType::FireStaff => "fire_staff",
            WeaponType::IceStaff => "ice_staff",
            WeaponType::LightningStaff => "lightning_staff",
            WeaponType::ShadowStaff => "shadow_staff",
            WeaponType::NatureStaff => "nature_staff",
            WeaponType::ArcaneStaff => "arcane_staff",
            WeaponType::RestorationStaff => "restoration_staff",
            WeaponType::DivinationStaff => "divination_staff",
            WeaponType::MagicalOrb => "magical_orb",
        }
    }

    /// The damage type that the identifier `damage_type_id` names, if any.
    pub fn damage_type_id_to_enum(&self, damage_type_id: &str) -> (found: Option<DamageType>)
        ensures
            found == damage_type_from_id(damage_type_id@),
    {
        if str_eq(damage_type_id, "slashing") {
            return Some(DamageType::Slashing);
        }
        if str_eq(damage_type_id, "piercing") {
            return Some(DamageType::Piercing);
        }
        if str_eq(damage_type_id, "bludgeoning") {
            return Some(DamageType::Bludgeoning);
        }
        if str_eq(damage_type_id, "fire") {
            return Some(DamageType::Fire);
        }
        if str_eq(damage_type_id, "ice") {
            return Some(DamageType::Ice);
        }
        if str_eq(damage_type_id, "lightning") {
            return Some(DamageType::Lightning);
        }
        if str_eq(damage_type_id, "shadow") {
            return Some(DamageType::Shadow);
        }
        if str_eq(damage_type_id, "nature") {
            return Some(DamageType::Nature);
        }
        if str_eq(damage_type_id, "arcane") {
            return Some(DamageType::Arcane);
        }
        if str_eq(damage_type_id, "healing") {
            return Some(DamageType::Healing);
        }
        if str_eq(damage_type_id, "psychic") {
            return Some(DamageType::Psychic);
        }
        if str_eq(damage_type_id, "holy") {
            return Some(DamageType::Holy);
        }
        if str_eq(damage_type_id, "necrotic") {
            return Some(DamageType::Necrotic);
        }
        None
    }

    /// The configuration identifier of a damage type.
    pub fn damage_type_enum_to_id(&self, damage_type: DamageType) -> (id: &'static str)
        ensures
            id@ == damage_type_id(damage_type),
            is_snake_case(id@),
    {
        proof {
            lemma_damage_type_ids_snake_case(damage_type);
        }
        match damage_type {
            DamageType::Slashing => "slashing",
            DamageType::Piercing => "piercing",
            DamageType::Bludgeoning => "bludgeoning",
            DamageType::Fire => "fire",
            DamageType::Ice => "ice",
            DamageType::Lightning => "lightning",
            DamageType::Shadow => "shadow",
            DamageType::Nature => "nature",
            DamageType::Arcane => "arcane",
            DamageType::Healing => "healing",
            DamageType::Psychic => "psychic",
            DamageType::Holy => "holy",
            DamageType::Necrotic => "necrotic",
        }
    }

    /// The role that the identifier `role_id` names, if any.
    pub fn role_id_to_enum(&self, role_id: &str) -> (found: Option<RoleType>)
        ensures
            found == role_from_id(role_id@),
    {
        if str_eq(role_id, "tank") {
            return Some(RoleType::Tank);
        }
        if str_eq(role_id, "healer") {
            return Some(RoleType::Healer);
        }
        if str_eq(role_id, "dps") {
            return Some(RoleType::DPS);
        }
        if str_eq(role_id, "support") {
            return Some(RoleType::Support);
        }
        if str_eq(role_id, "utility") {
            return Some(RoleType::Utility);
        }
        None
    }

}

proof fn lemma_flatten_take_step<T>(entries: Seq<T>, i: int, issues: spec_fn(T) -> Seq<ConfigIssue>)
    requires
        0 <= i < entries.len(),
    ensures
        entries.take(i + 1).map_values(issues).flatten() == entries.take(i).map_values(
            issues,
        ).flatten() + issues(entries[i]),
{
    assert(entries.take(i + 1).map_values(issues) =~= entries.take(i).map_values(issues).push(
        issues(entries[i]),
    ));
    entries.take(i).map_values(issues).lemma_flatten_push(issues(entries[i]));
}

impl ProgressionConfig {
    /// Whether a skill with identifier `id` is configured.
    fn has_skill_id(&self, id: &str) -> (found: bool)
        ensures
            found == self.has_skill(id@),
    {
        let mut i: usize = 0;
        while i < self.skills.len()
            invariant
                i <= self.skills@.len(),
                forall|j: int| 0 <= j < i ==> self.skills@[j].id@ != id@,
            decreases self.skills@.len() - i,
        {
            if str_eq(self.skills[i].id.as_str(), id) {
                assert(self.skills@[i as int].id@ == id@);
                return true;
            }
            i = i + 1;
        }
        false
    }

    /// Whether a weapon with identifier `id` is configured.
    fn has_weapon_id(&self, id: &str) -> (found: bool)
        ensures
            found == self.has_weapon(id@),
    {
        let mut i: usize = 0;
        while i < self.weapons.len()
            invariant
                i <= self.weapons@.len(),
                forall|j: int| 0 <= j < i ==> self.weapons@[j].id@ != id@,
            decreases self.weapons@.len() - i,
        {
            if str_eq(self.weapons[i].id.as_str(), id) {
                assert(self.weapons@[i as int].id@ == id@);
                return true;
            }
            i = i + 1;
        }
        false
    }

    /// Whether a damage type with identifier `id` is configured.
    fn has_damage_type_id(&self, id: &str) -> (found: bool)
        ensures
            found == self.has_damage_type(id@),
    {
        let mut i: usize = 0;
        while i < self.damage_types.len()
            invariant
                i <= self.damage_types@.len(),
                forall|j: int| 0 <= j < i ==> self.damage_types@[j].id@ != id@,
            decreases self.damage_types@.len() - i,
        {
            if str_eq(self.damage_types[i].id.as_str(), id) {
                assert(self.damage_types@[i as int].id@ == id@);
                return true;
            }
            i = i + 1;
        }
        false
    }

    /// Appends to `out` the errors for those of `refs` that do not resolve.
    fn push_dangling_references(
        &self,
        reference: Reference,
        owner: &String,
        refs: &Vec<String>,
        out: &mut Vec<ConfigIssue>,
    )
        ensures
            final(out)@ == old(out)@ + self.dangling_references(reference, *owner, refs@),
    {
        let ghost start = out@;
        let n = refs.len();
        let mut j: usize = 0;
        while j < n
            invariant
                n == refs@.len(),
                j <= n,
                out@ == start + self.dangling_references(reference, *owner, refs@.take(j as int)),
            decreases n - j,
        {
            let target = &refs[j];
            let resolved = match reference {
                Reference::SkillWeapon | Reference::RoleWeapon => self.has_weapon_id(
                    target.as_str(),
                ),
                Reference::RolePrimarySkill | Reference::RoleSecondarySkill => self.has_skill_id(
                    target.as_str(),
                ),
            };
            if !resolved {
                let issue = match reference {
                    Reference::SkillWeapon => ConfigIssue::SkillUnknownWeapon {
                        skill: owner.clone(),
                        weapon: target.clone(),
                    },
                    Reference::RolePrimarySkill => ConfigIssue::RoleUnknownPrimarySkill {
                        role: owner.clone(),
                        skill: target.clone(),
                    },
                    Reference::RoleSecondarySkill => ConfigIssue::RoleUnknownSecondarySkill {
                        role: owner.clone(),
                        skill: target.clone(),
                    },
                    Reference::RoleWeapon => ConfigIssue::RoleUnknownRecommendedWeapon {
                        role: owner.clone(),
                        weapon: target.clone(),
                    },
                };
                out.push(issue);
            }
            proof {
                let prefix = refs@.take(j + 1);
                assert(prefix.drop_last() =~= refs@.take(j as int));
                assert(prefix.last() == refs@[j as int]);
            }
            j = j + 1;
        }
        proof {
            assert(refs@.take(n as int) =~= refs@);
        }
    }

    /// Checks the configuration: each skill's display name and maximum level,
    /// each weapon's display name, base damage and attack speed, each role's
    /// display name (warnings), and that every identifier an entry refers to
    /// is configured (errors). The configuration passes when there is no error.
    pub fn validate(&self) -> (report: ValidationReport)
        ensures
            report.warnings@ == self.spec_warnings(),
            report.errors@ == self.spec_errors(),
    {
        let mut warnings: Vec<ConfigIssue> = Vec::new();
        let mut errors: Vec<ConfigIssue> = Vec::new();

        let n = self.skills.len();
        let mut i: usize = 0;
        while i < n
            invariant
                n == self.skills@.len(),
                i <= n,
                warnings@ == self.skills@.take(i as int).map_values(
                    |s: SkillConfig| Self::skill_warnings(s),
                ).flatten(),
                errors@ == self.skills@.take(i as int).map_values(
                    |s: SkillConfig| self.skill_errors(s),
                ).flatten(),
            decreases n - i,
        {
            let skill = &self.skills[i];
            let ghost w0 = warnings@;
            if skill.display_name.as_str().is_empty() {
                warnings.push(ConfigIssue::SkillEmptyName { skill: skill.id.clone() });
            }
            if skill.max_level == 0 || skill.max_level > 100 {
                warnings.push(
                    ConfigIssue::SkillInvalidMaxLevel {
                        skill: skill.id.clone(),
                        max_level: skill.max_level,
                    },
                );
            }
            assert(warnings@ =~= w0 + Self::skill_warnings(*skill));
            self.push_dangling_references(
                Reference::SkillWeapon,
                &skill.id,
                &skill.associated_weapons,
                &mut errors,
            );
            proof {
                lemma_flatten_take_step(
                    self.skills@,
                    i as int,
                    |s: SkillConfig| Self::skill_warnings(s),
                );
                lemma_flatten_take_step(
                    self.skills@,
                    i as int,
                    |s: SkillConfig| self.skill_errors(s),
                );
            }
            i = i + 1;
        }
        proof {
            assert(self.skills@.take(n as int) =~= self.skills@);
        }
        let ghost skill_warnings = warnings@;
        let ghost skill_errors = errors@;

        let n = self.weapons.len();
        let mut i: usize = 0;
        while i < n
            invariant
                n == self.weapons@.len(),
                i <= n,
                warnings@ == skill_warnings + self.weapons@.take(i as int).map_values(
                    |w: WeaponConfig| Self::weapon_warnings(w),
                ).flatten(),
                errors@ == skill_errors + self.weapons@.take(i as int).map_values(
                    |w: WeaponConfig| self.weapon_errors(w),
                ).flatten(),
            decreases n - i,
        {
            let weapon = &self.weapons[i];
            let ghost w0 = warnings@;
            let ghost e0 = errors@;
            if weapon.display_name.as_str().is_empty() {
                warnings.push(ConfigIssue::WeaponEmptyName { weapon: weapon.id.clone() });
            }
            if !weapon.base_damage_positive {
                warnings.push(ConfigIssue::WeaponInvalidBaseDamage { weapon: weapon.id.clone() });
            }
            if !weapon.attack_speed_positive {
                warnings.push(ConfigIssue::WeaponInvalidAttackSpeed { weapon: weapon.id.clone() });
            }
            assert(warnings@ =~= w0 + Self::weapon_warnings(*weapon));
            if !self.has_skill_id(weapon.associated_skill.as_str()) {
                errors.push(
                    ConfigIssue::WeaponUnknownSkill {
                        weapon: weapon.id.clone(),
                        skill: weapon.associated_skill.clone(),
                    },
                );
            }
            if !self.has_damage_type_id(weapon.damage_type.as_str()) {
                errors.push(
                    ConfigIssue::WeaponUnknownDamageType {
                        weapon: weapon.id.clone(),
                        damage_type: weapon.damage_type.clone(),
                    },
                );
            }
            assert(errors@ =~= e0 + self.weapon_errors(*weapon));
            proof {
                lemma_flatten_take_step(
                    self.weapons@,
                    i as int,
                    |w: WeaponConfig| Self::weapon_warnings(w),
                );
                lemma_flatten_take_step(
                    self.weapons@,
                    i as int,
                    |w: WeaponConfig| self.weapon_errors(w),
                );
            }
            i = i + 1;
        }
        proof {
            assert(self.weapons@.take(n as int) =~= self.weapons@);
        }
        let ghost weapon_warnings = warnings@;
        let ghost weapon_errors = errors@;

        let n = self.roles.len();
        let mut i: usize = 0;
        while i < n
            invariant
                n == self.roles@.len(),
                i <= n,
                warnings@ == weapon_warnings + self.roles@.take(i as int).map_values(
                    |r: RoleConfig| Self::role_warnings(r),
                ).flatten(),
                errors@ == weapon_errors + self.roles@.take(i as int).map_values(
                    |r: RoleConfig| self.role_errors(r),
                ).flatten(),
            decreases n - i,
        {
            let role = &self.roles[i];
            let ghost w0 = warnings@;
            let ghost e0 = errors@;
            if role.display_name.as_str().is_empty() {
                warnings.push(ConfigIssue::RoleEmptyName { role: role.id.clone() });
            }
            assert(warnings@ =~= w0 + Self::role_warnings(*role));
            self.push_dangling_references(
                Reference::RolePrimarySkill,
                &role.id,
                &role.primary_skills,
                &mut errors,
            );
            self.push_dangling_references(
                Reference::RoleSecondarySkill,
                &role.id,
                &role.secondary_skills,
                &mut errors,
            );
            self.push_dangling_references(
                Reference::RoleWeapon,
                &role.id,
                &role.recommended_weapons,
                &mut errors,
            );
            assert(errors@ =~= e0 + self.role_errors(*role));
            proof {
                lemma_flatten_take_step(
                    self.roles@,
                    i as int,
                    |r: RoleConfig| Self::role_warnings(r),
                );
                lemma_flatten_take_step(
                    self.roles@,
                    i as int,
                    |r: RoleConfig| self.role_errors(r),
                );
            }
            i = i + 1;
        }
        proof {
            assert(self.roles@.take(n as int) =~= self.roles@);
        }
        ValidationReport { warnings, errors }
    }
}

impl ProgressionConfig {
    /// Every identifier that an entry of the configuration refers to is configured.
    pub open spec fn references_resolve(self) -> bool {
        &&& forall|i: int, j: int|
            0 <= i < self.skills@.len() && 0 <= j < self.skills@[i].associated_weapons@.len()
                ==> self.has_weapon(#[trigger] self.skills@[i].associated_weapons@[j]@)
        &&& forall|i: int|
            0 <= i < self.weapons@.len() ==> self.has_skill(
                #[trigger] self.weapons@[i].associated_skill@,
            ) && self.has_damage_type(self.weapons@[i].damage_type@)
        &&& forall|i: int, j: int|
            0 <= i < self.roles@.len() && 0 <= j < self.roles@[i].primary_skills@.len()
                ==> self.has_skill(#[trigger] self.roles@[i].primary_skills@[j]@)
        &&& forall|i: int, j: int|
            0 <= i < self.roles@.len() && 0 <= j < self.roles@[i].secondary_skills@.len()
                ==> self.has_skill(#[trigger] self.roles@[i].secondary_skills@[j]@)
        &&& forall|i: int, j: int|
            0 <= i < self.roles@.len() && 0 <= j < self.roles@[i].recommended_weapons@.len()
                ==> self.has_weapon(#[trigger] self.roles@[i].recommended_weapons@[j]@)
    }

    proof fn lemma_dangling_empty(self, reference: Reference, owner: String, refs: Seq<String>)
        ensures
            self.dangling_references(reference, owner, refs).len() == 0 <==> forall|j: int|
                0 <= j < refs.len() ==> self.resolves(reference, #[trigger] refs[j]@),
        decreases refs.len(),
    {
        if refs.len() > 0 {
            self.lemma_dangling_empty(reference, owner, refs.drop_last());
            assert forall|j: int| 0 <= j < refs.len() - 1 implies refs.drop_last()[j] == refs[j] by {}
            if self.dangling_references(reference, owner, refs).len() == 0 {
                assert forall|j: int| 0 <= j < refs.len() implies self.resolves(
                    reference,
                    #[trigger] refs[j]@,
                ) by {
                    if j < refs.len() - 1 {
                        assert(refs.drop_last()[j] == refs[j]);
                    }
                }
            }
        }
    }
}

proof fn lemma_flatten_empty<A>(parts: Seq<Seq<A>>)
    ensures
        parts.flatten().len() == 0 <==> forall|i: int| 0 <= i < parts.len() ==> #[trigger] parts[i].len() == 0,
    decreases parts.len(),
{
    if parts.len() > 0 {
        lemma_flatten_empty(parts.drop_first());
        if parts.flatten().len() == 0 {
            assert forall|i: int| 0 <= i < parts.len() implies #[trigger] parts[i].len() == 0 by {
                if i > 0 {
                    assert(parts.drop_first()[i - 1] == parts[i]);
                }
            }
        } else {
            if forall|i: int| 0 <= i < parts.len() ==> #[trigger] parts[i].len() == 0 {
                assert forall|i: int| 0 <= i < parts.drop_first().len() implies #[trigger] parts.drop_first()[i].len() == 0 by {
                    assert(parts.drop_first()[i] == parts[i + 1]);
                }
                assert(parts[0].len() == 0);
            }
        }
    }
}

proof fn lemma_flatten_contains<A>(parts: Seq<Seq<A>>, i: int, x: A)
    requires
        0 <= i < parts.len(),
        parts[i].contains(x),
    ensures
        parts.flatten().contains(x),
    decreases parts.len(),
{
    if i == 0 {
        let k = choose|k: int| 0 <= k < parts[0].len() && parts[0][k] == x;
        assert(parts.flatten() == parts[0] + parts.drop_first().flatten());
        assert(parts.flatten()[k] == x);
    } else {
        assert(parts.drop_first()[i - 1] == parts[i]);
        lemma_flatten_contains(parts.drop_first(), i - 1, x);
        let k = choose|k: int|
            0 <= k < parts.drop_first().flatten().len() && parts.drop_first().flatten()[k] == x;
        assert(parts.flatten() == parts[0] + parts.drop_first().flatten());
        assert(parts.flatten()[parts[0].len() + k] == x);
    }
}

/// Validation warns of every suspicious value: a skill, weapon or role with
/// an empty display name, a skill whose maximum level is 0 or above 100, a
/// weapon whose base damage or attack speed is not positive, each by a
/// warning that names the entry; and the warnings are empty exactly when no
/// entry has such a value.
pub proof fn lemma_validation_warns_of_suspicious_values(config: ProgressionConfig)
    ensures
        forall|i: int|
            0 <= i < config.skills@.len() && (#[trigger] config.skills@[i]).display_name@.len() == 0
                ==> config.spec_warnings().contains(
                ConfigIssue::SkillEmptyName { skill: config.skills@[i].id },
            ),
        forall|i: int|
            0 <= i < config.skills@.len() && ((#[trigger] config.skills@[i]).max_level == 0
                || config.skills@[i].max_level > 100) ==> config.spec_warnings().contains(
                ConfigIssue::SkillInvalidMaxLevel {
                    skill: config.skills@[i].id,
                    max_level: config.skills@[i].max_level,
                },
            ),
        forall|i: int|
            0 <= i < config.weapons@.len() && (#[trigger] config.weapons@[i]).display_name@.len()
                == 0 ==> config.spec_warnings().contains(
                ConfigIssue::WeaponEmptyName { weapon: config.weapons@[i].id },
            ),
        forall|i: int|
            0 <= i < config.weapons@.len() && !(#[trigger] config.weapons@[i]).base_damage_positive
                ==> config.spec_warnings().contains(
                ConfigIssue::WeaponInvalidBaseDamage { weapon: config.weapons@[i].id },
            ),
        forall|i: int|
            0 <= i < config.weapons@.len() && !(#[trigger] config.weapons@[i]).attack_speed_positive
                ==> config.spec_warnings().contains(
                ConfigIssue::WeaponInvalidAttackSpeed { weapon: config.weapons@[i].id },
            ),
        forall|i: int|
            0 <= i < config.roles@.len() && (#[trigger] config.roles@[i]).display_name@.len() == 0
                ==> config.spec_warnings().contains(
                ConfigIssue::RoleEmptyName { role: config.roles@[i].id },
            ),
        config.spec_warnings().len() == 0 <==> {
            &&& forall|i: int|
                0 <= i < config.skills@.len() ==> (#[trigger] config.skills@[i]).display_name@.len()
                    > 0 && 1 <= config.skills@[i].max_level <= 100
            &&& forall|i: int|
                0 <= i < config.weapons@.len() ==> (#[trigger] config.weapons@[i]).display_name@.len()
                    > 0 && config.weapons@[i].base_damage_positive
                    && config.weapons@[i].attack_speed_positive
            &&& forall|i: int|
                0 <= i < config.roles@.len() ==> (#[trigger] config.roles@[i]).display_name@.len()
                    > 0
        },
{
    let sw = config.skills@.map_values(|s: SkillConfig| ProgressionConfig::skill_warnings(s));
    let ww = config.weapons@.map_values(|w: WeaponConfig| ProgressionConfig::weapon_warnings(w));
    let rw = config.roles@.map_values(|r: RoleConfig| ProgressionConfig::role_warnings(r));
    let all = config.spec_warnings();
    assert(all == sw.flatten() + ww.flatten() + rw.flatten());
    assert forall|x: ConfigIssue| sw.flatten().contains(x) implies all.contains(x) by {
        let k = choose|k: int| 0 <= k < sw.flatten().len() && sw.flatten()[k] == x;
        assert(all[k] == x);
    }
    assert forall|x: ConfigIssue| ww.flatten().contains(x) implies all.contains(x) by {
        let k = choose|k: int| 0 <= k < ww.flatten().len() && ww.flatten()[k] == x;
        assert(all[sw.flatten().len() + k] == x);
    }
    assert forall|x: ConfigIssue| rw.flatten().contains(x) implies all.contains(x) by {
        let k = choose|k: int| 0 <= k < rw.flatten().len() && rw.flatten()[k] == x;
        assert(all[sw.flatten().len() + ww.flatten().len() + k] == x);
    }
    assert forall|i: int|
        0 <= i < config.skills@.len() && (#[trigger] config.skills@[i]).display_name@.len() == 0
            implies all.contains(ConfigIssue::SkillEmptyName { skill: config.skills@[i].id }) by {
        assert(sw[i][0] == ConfigIssue::SkillEmptyName { skill: config.skills@[i].id });
        lemma_flatten_contains(sw, i, ConfigIssue::SkillEmptyName { skill: config.skills@[i].id });
    }
    assert forall|i: int|
        0 <= i < config.skills@.len() && ((#[trigger] config.skills@[i]).max_level == 0
            || config.skills@[i].max_level > 100) implies all.contains(
        ConfigIssue::SkillInvalidMaxLevel {
            skill: config.skills@[i].id,
            max_level: config.skills@[i].max_level,
        },
    ) by {
        let x = ConfigIssue::SkillInvalidMaxLevel {
            skill: config.skills@[i].id,
            max_level: config.skills@[i].max_level,
        };
        assert(sw[i][sw[i].len() - 1] == x);
        lemma_flatten_contains(sw, i, x);
    }
    assert forall|i: int|
        0 <= i < config.weapons@.len() && (#[trigger] config.weapons@[i]).display_name@.len() == 0
            implies all.contains(ConfigIssue::WeaponEmptyName { weapon: config.weapons@[i].id }) by {
        let x = ConfigIssue::WeaponEmptyName { weapon: config.weapons@[i].id };
        assert(ww[i][0] == x);
        lemma_flatten_contains(ww, i, x);
    }
    assert forall|i: int|
        0 <= i < config.weapons@.len() && !(#[trigger] config.weapons@[i]).base_damage_positive
            implies all.contains(ConfigIssue::WeaponInvalidBaseDamage { weapon: config.weapons@[i].id }) by {
        let w = config.weapons@[i];
        let x = ConfigIssue::WeaponInvalidBaseDamage { weapon: w.id };
        let k: int = if w.display_name@.len() == 0 { 1 } else { 0 };
        assert(ww[i][k] == x);
        lemma_flatten_contains(ww, i, x);
    }
    assert forall|i: int|
        0 <= i < config.weapons@.len() && !(#[trigger] config.weapons@[i]).attack_speed_positive
            implies all.contains(ConfigIssue::WeaponInvalidAttackSpeed { weapon: config.weapons@[i].id }) by {
        let x = ConfigIssue::WeaponInvalidAttackSpeed { weapon: config.weapons@[i].id };
        assert(ww[i][ww[i].len() - 1] == x);
        lemma_flatten_contains(ww, i, x);
    }
    assert forall|i: int|
        0 <= i < config.roles@.len() && (#[trigger] config.roles@[i]).display_name@.len() == 0
            implies all.contains(ConfigIssue::RoleEmptyName { role: config.roles@[i].id }) by {
        let x = ConfigIssue::RoleEmptyName { role: config.roles@[i].id };
        assert(rw[i][0] == x);
        lemma_flatten_contains(rw, i, x);
    }
    lemma_flatten_empty(sw);
    lemma_flatten_empty(ww);
    lemma_flatten_empty(rw);
    assert forall|i: int| 0 <= i < sw.len() implies (#[trigger] sw[i]).len() == 0 <==> (
        config.skills@[i].display_name@.len() > 0 && 1 <= config.skills@[i].max_level <= 100) by {}
    assert forall|i: int| 0 <= i < ww.len() implies (#[trigger] ww[i]).len() == 0 <==> (
        config.weapons@[i].display_name@.len() > 0 && config.weapons@[i].base_damage_positive
            && config.weapons@[i].attack_speed_positive) by {}
    assert forall|i: int| 0 <= i < rw.len() implies (#[trigger] rw[i]).len() == 0 <==> (
        config.roles@[i].display_name@.len() > 0) by {}
}

/// A configuration passes validation (no error) exactly when every
/// identifier that one of its entries refers to is configured.
pub proof fn lemma_validation_passes_iff_references_resolve(config: ProgressionConfig)
    ensures
        config.spec_errors().len() == 0 <==> config.references_resolve(),
{
    let se = config.skills@.map_values(|s: SkillConfig| config.skill_errors(s));
    let we = config.weapons@.map_values(|w: WeaponConfig| config.weapon_errors(w));
    let re = config.roles@.map_values(|r: RoleConfig| config.role_errors(r));
    lemma_flatten_empty(se);
    lemma_flatten_empty(we);
    lemma_flatten_empty(re);
    assert forall|i: int| 0 <= i < config.skills@.len() implies (#[trigger] se[i]).len() == 0 <==> (
    forall|j: int|
        0 <= j < config.skills@[i].associated_weapons@.len() ==> config.has_weapon(
            #[trigger] config.skills@[i].associated_weapons@[j]@,
        )) by {
        let s = config.skills@[i];
        config.lemma_dangling_empty(Reference::SkillWeapon, s.id, s.associated_weapons@);
    }
    assert forall|i: int| 0 <= i < config.roles@.len() implies (#[trigger] re[i]).len() == 0 <==> (
    (forall|j: int|
        0 <= j < config.roles@[i].primary_skills@.len() ==> config.has_skill(
            #[trigger] config.roles@[i].primary_skills@[j]@,
        )) && (forall|j: int|
        0 <= j < config.roles@[i].secondary_skills@.len() ==> config.has_skill(
            #[trigger] config.roles@[i].secondary_skills@[j]@,
        )) && (forall|j: int|
        0 <= j < config.roles@[i].recommended_weapons@.len() ==> config.has_weapon(
            #[trigger] config.roles@[i].recommended_weapons@[j]@,
        ))) by {
        let r = config.roles@[i];
        config.lemma_dangling_empty(Reference::RolePrimarySkill, r.id, r.primary_skills@);
        config.lemma_dangling_empty(Reference::RoleSecondarySkill, r.id, r.secondary_skills@);
        config.lemma_dangling_empty(Reference::RoleWeapon, r.id, r.recommended_weapons@);
    }
    assert forall|i: int| 0 <= i < config.weapons@.len() implies (#[trigger] we[i]).len() == 0 <==> (
    config.has_skill(config.weapons@[i].associated_skill@) && config.has_damage_type(
        config.weapons@[i].damage_type@,
    )) by {}
    assert(config.spec_errors() == se.flatten() + we.flatten() + re.flatten());
    if config.spec_errors().len() == 0 {
        assert forall|i: int, j: int|
            0 <= i < config.skills@.len() && 0 <= j < config.skills@[i].associated_weapons@.len()
                implies config.has_weapon(#[trigger] config.skills@[i].associated_weapons@[j]@) by {
            assert(se[i].len() == 0);
        }
        assert forall|i: int|
            0 <= i < config.weapons@.len() implies config.has_skill(
                #[trigger] config.weapons@[i].associated_skill@,
            ) && config.has_damage_type(config.weapons@[i].damage_type@) by {
            assert(we[i].len() == 0);
        }
        assert forall|i: int, j: int|
            0 <= i < config.roles@.len() && 0 <= j < config.roles@[i].primary_skills@.len()
                implies config.has_skill(#[trigger] config.roles@[i].primary_skills@[j]@) by {
            assert(re[i].len() == 0);
        }
        assert forall|i: int, j: int|
            0 <= i < config.roles@.len() && 0 <= j < config.roles@[i].secondary_skills@.len()
                implies config.has_skill(#[trigger] config.roles@[i].secondary_skills@[j]@) by {
            assert(re[i].len() == 0);
        }
        assert forall|i: int, j: int|
            0 <= i < config.roles@.len() && 0 <= j < config.roles@[i].recommended_weapons@.len()
                implies config.has_weapon(#[trigger] config.roles@[i].recommended_weapons@[j]@) by {
            assert(re[i].len() == 0);
        }
    }
    if config.references_resolve() {
        assert forall|i: int| 0 <= i < se.len() implies #[trigger] se[i].len() == 0 by {}
        assert forall|i: int| 0 <= i < we.len() implies #[trigger] we[i].len() == 0 by {}
        assert forall|i: int| 0 <= i < re.len() implies #[trigger] re[i].len() == 0 by {}
    }
}

/// The position of the first weapon with identifier `id` at or after
/// `start`, or -1.
pub open spec fn first_weapon_index(weapons: Seq<WeaponConfig>, id: Seq<char>, start: int) -> int
    decreases weapons.len() - start,
{
    if start < 0 || start >= weapons.len() {
        -1
    } else if weapons[start].id@ == id {
        start
    } else {
        first_weapon_index(weapons, id, start + 1)
    }
}

/// The first weapon at or after `start` with identifier `id` is the first
/// one there whose identifier is `id`, and there is one exactly when some
/// weapon from `start` on has that identifier.
proof fn lemma_first_weapon_index(weapons: Seq<WeaponConfig>, id: Seq<char>, start: int)
    requires
        0 <= start,
    ensures
        first_weapon_index(weapons, id, start) >= 0 <==> exists|i: int|
            start <= i < weapons.len() && #[trigger] weapons[i].id@ == id,
        first_weapon_index(weapons, id, start) >= 0 ==> {
            let k = first_weapon_index(weapons, id, start);
            &&& start <= k < weapons.len()
            &&& weapons[k].id@ == id
        },
    decreases weapons.len() - start,
{
    if start < weapons.len() {
        lemma_first_weapon_index(weapons, id, start + 1);
        if weapons[start].id@ != id {
            assert forall|i: int| start <= i < weapons.len() && #[trigger] weapons[i].id@ == id
                implies start + 1 <= i by {}
        }
    }
}

/// Two weapon identifiers that name the same weapon kind look up the same
/// configuration: the lookup by kind is the lookup by the kind's identifier.
pub proof fn lemma_weapon_lookup_by_kind_is_by_id(config: ProgressionConfig, id: Seq<char>, weapon_type: WeaponType)
    requires
        weapon_from_id(id) == Some(weapon_type),
    ensures
        config.weapon_lookup(weapon_id(weapon_type)) == config.weapon_lookup(id),
{
    lemma_weapon_from_id_sound(id);
}

impl ProgressionConfig {
    /// The weapon configuration with identifier `id`: the first configured
    /// weapon with that identifier, or `None` when none has it.
    pub fn get_weapon(&self, id: &str) -> (found: Option<&WeaponConfig>)
        ensures
            match found {
                Some(config) => self.weapon_lookup(id@) == Some(*config),
                None => self.weapon_lookup(id@) is None,
            },
            found is Some <==> self.has_weapon(id@),
            found matches Some(config) ==> exists|i: int|
                0 <= i < self.weapons@.len() && self.weapons@[i] == *config && config.id@ == id@
                    && forall|j: int| 0 <= j < i ==> #[trigger] self.weapons@[j].id@ != id@,
            self.ids_unique() ==> (found matches Some(config) ==> forall|i: int|
                0 <= i < self.weapons@.len() && #[trigger] self.weapons@[i].id@ == id@
                    ==> self.weapons@[i] == *config),
    {
        proof {
            lemma_first_weapon_index(self.weapons@, id@, 0);
        }
        let mut i: usize = 0;
        while i < self.weapons.len()
            invariant
                i <= self.weapons@.len(),
                forall|j: int| 0 <= j < i ==> #[trigger] self.weapons@[j].id@ != id@,
                first_weapon_index(self.weapons@, id@, 0) == first_weapon_index(
                    self.weapons@,
                    id@,
                    i as int,
                ),
            decreases self.weapons@.len() - i,
        {
            if str_eq(self.weapons[i].id.as_str(), id) {
                return Some(&self.weapons[i]);
            }
            i = i + 1;
        }
        None
    }

    /// The weapon configuration under the identifier of `weapon_type`: the
    /// first configured weapon with that identifier, or `None` when none has
    /// it. This is the lookup by identifier (`get_weapon`) of that identifier.
    pub fn get_weapon_config_by_enum(&self, weapon_type: WeaponType) -> (found: Option<
        &WeaponConfig,
    >)
        ensures
            match found {
                Some(config) => self.weapon_lookup(weapon_id(weapon_type)) == Some(*config),
                None => self.weapon_lookup(weapon_id(weapon_type)) is None,
            },
            found is Some <==> self.has_weapon(weapon_id(weapon_type)),
            found matches Some(config) ==> exists|i: int|
                0 <= i < self.weapons@.len() && self.weapons@[i] == *config && config.id@
                    == weapon_id(weapon_type) && forall|j: int|
                    0 <= j < i ==> #[trigger] self.weapons@[j].id@ != weapon_id(weapon_type),
            self.ids_unique() ==> (found matches Some(config) ==> forall|i: int|
                0 <= i < self.weapons@.len() && #[trigger] self.weapons@[i].id@ == weapon_id(
                    weapon_type,
                ) ==> self.weapons@[i] == *config),
    {
        self.get_weapon(self.weapon_enum_to_id(weapon_type))
    }

    /// The skill configuration under the identifier of `skill_type`: the
    /// first configured skill with that identifier, or `None` when none has it.
    pub fn get_skill_config_by_enum(&self, skill_type: SkillType) -> (found: Option<&SkillConfig>)
        ensures
            found is Some <==> self.has_skill(skill_id(skill_type)),
            found matches Some(config) ==> exists|i: int|
                0 <= i < self.skills@.len() && self.skills@[i] == *config && config.id@ == skill_id(
                    skill_type,
                ) && forall|j: int|
                    0 <= j < i ==> #[trigger] self.skills@[j].id@ != skill_id(skill_type),
            self.ids_unique() ==> (found matches Some(config) ==> forall|i: int|
                0 <= i < self.skills@.len() && #[trigger] self.skills@[i].id@ == skill_id(
                    skill_type,
                ) ==> self.skills@[i] == *config),
    {
        let id = self.skill_enum_to_id(skill_type);
        let mut i: usize = 0;
        while i < self.skills.len()
            invariant
                i <= self.skills@.len(),
                id@ == skill_id(skill_type),
                forall|j: int| 0 <= j < i ==> #[trigger] self.skills@[j].id@ != id@,
            decreases self.skills@.len() - i,
        {
            if str_eq(self.skills[i].id.as_str(), id) {
                return Some(&self.skills[i]);
            }
            i = i + 1;
        }
        None
    }

    /// The damage type configuration under the identifier of `damage_type`:
    /// the first configured damage type with that identifier, or `None` when
    /// none has it.
    pub fn get_damage_type_config_by_enum(&self, damage_type: DamageType) -> (found: Option<
        &DamageTypeConfig,
    >)
        ensures
            found is Some <==> self.has_damage_type(damage_type_id(damage_type)),
            found matches Some(config) ==> exists|i: int|
                0 <= i < self.damage_types@.len() && self.damage_types@[i] == *config && config.id@
                    == damage_type_id(damage_type) && forall|j: int|
                    0 <= j < i ==> #[trigger] self.damage_types@[j].id@ != damage_type_id(
                        damage_type,
                    ),
            self.ids_unique() ==> (found matches Some(config) ==> forall|i: int|
                0 <= i < self.damage_types@.len() && #[trigger] self.damage_types@[i].id@
                    == damage_type_id(damage_type) ==> self.damage_types@[i] == *config),
    {
        let id = self.damage_type_enum_to_id(damage_type);
        let mut i: usize = 0;
        while i < self.damage_types.len()
            invariant
                i <= self.damage_types@.len(),
                id@ == damage_type_id(damage_type),
                forall|j: int| 0 <= j < i ==> #[trigger] self.damage_types@[j].id@ != id@,
            decreases self.damage_types@.len() - i,
        {
            if str_eq(self.damage_types[i].id.as_str(), id) {
                return Some(&self.damage_types[i]);
            }
            i = i + 1;
        }
        None
    }
}

impl ProgressionConfig {
    fn skills_ids_unique(&self) -> (unique: bool)
        ensures
            unique == forall|i: int, j: int|
                0 <= i < j < self.skills@.len() ==> self.skills@[i].id@ != self.skills@[j].id@,
    {
        let n = self.skills.len();
        let mut j: usize = 0;
        while j < n
            invariant
                n == self.skills@.len(),
                j <= n,
                forall|a: int, b: int| 0 <= a < b < j ==> self.skills@[a].id@ != self.skills@[b].id@,
            decreases n - j,
        {
            let mut i: usize = 0;
            while i < j
                invariant
                    n == self.skills@.len(),
                    i <= j < n,
                    forall|a: int, b: int| 0 <= a < b < j ==> self.skills@[a].id@ != self.skills@[b].id@,
                    forall|a: int| 0 <= a < i ==> self.skills@[a].id@ != self.skills@[j as int].id@,
                decreases j - i,
            {
                if str_eq(self.skills[i].id.as_str(), self.skills[j].id.as_str()) {
                    return false;
                }
                i = i + 1;
            }
            j = j + 1;
        }
        true
    }

    fn weapons_ids_unique(&self) -> (unique: bool)
        ensures
            unique == forall|i: int, j: int|
                0 <= i < j < self.weapons@.len() ==> self.weapons@[i].id@ != self.weapons@[j].id@,
    {
        let n = self.weapons.len();
        let mut j: usize = 0;
        while j < n
            invariant
                n == self.weapons@.len(),
                j <= n,
                forall|a: int, b: int| 0 <= a < b < j ==> self.weapons@[a].id@ != self.weapons@[b].id@,
            decreases n - j,
        {
            let mut i: usize = 0;
            while i < j
                invariant
                    n == self.weapons@.len(),
                    i <= j < n,
                    forall|a: int, b: int| 0 <= a < b < j ==> self.weapons@[a].id@ != self.weapons@[b].id@,
                    forall|a: int| 0 <= a < i ==> self.weapons@[a].id@ != self.weapons@[j as int].id@,
                decreases j - i,
            {
                if str_eq(self.weapons[i].id.as_str(), self.weapons[j].id.as_str()) {
                    return false;
                }
                i = i + 1;
            }
            j = j + 1;
        }
        true
    }

    fn damage_types_ids_unique(&self) -> (unique: bool)
        ensures
            unique == forall|i: int, j: int|
                0 <= i < j < self.damage_types@.len() ==> self.damage_types@[i].id@ != self.damage_types@[j].id@,
    {
        let n = self.damage_types.len();
        let mut j: usize = 0;
        while j < n
            invariant
                n == self.damage_types@.len(),
                j <= n,
                forall|a: int, b: int| 0 <= a < b < j ==> self.damage_types@[a].id@ != self.damage_types@[b].id@,
            decreases n - j,
        {
            let mut i: usize = 0;
            while i < j
                invariant
                    n == self.damage_types@.len(),
                    i <= j < n,
                    forall|a: int, b: int| 0 <= a < b < j ==> self.damage_types@[a].id@ != self.damage_types@[b].id@,
                    forall|a: int| 0 <= a < i ==> self.damage_types@[a].id@ != self.damage_types@[j as int].id@,
                decreases j - i,
            {
                if str_eq(self.damage_types[i].id.as_str(), self.damage_types[j].id.as_str()) {
                    return false;
                }
                i = i + 1;
            }
            j = j + 1;
        }
        true
    }

    fn roles_ids_unique(&self) -> (unique: bool)
        ensures
            unique == forall|i: int, j: int|
                0 <= i < j < self.roles@.len() ==> self.roles@[i].id@ != self.roles@[j].id@,
    {
        let n = self.roles.len();
        let mut j: usize = 0;
        while j < n
            invariant
                n == self.roles@.len(),
                j <= n,
                forall|a: int, b: int| 0 <= a < b < j ==> self.roles@[a].id@ != self.roles@[b].id@,
            decreases n - j,
        {
            let mut i: usize = 0;
            while i < j
                invariant
                    n == self.roles@.len(),
                    i <= j < n,
                    forall|a: int, b: int| 0 <= a < b < j ==> self.roles@[a].id@ != self.roles@[b].id@,
                    forall|a: int| 0 <= a < i ==> self.roles@[a].id@ != self.roles@[j as int].id@,
                decreases j - i,
            {
                if str_eq(self.roles[i].id.as_str(), self.roles[j].id.as_str()) {
                    return false;
                }
                i = i + 1;
            }
            j = j + 1;
        }
        true
    }

    /// Whether no two entries of the same kind share an identifier.
    pub fn has_unique_ids(&self) -> (unique: bool)
        ensures
            unique == self.ids_unique(),
    {
        self.skills_ids_unique() && self.weapons_ids_unique() && self.damage_types_ids_unique()
            && self.roles_ids_unique()
    }
}

} // verus!
