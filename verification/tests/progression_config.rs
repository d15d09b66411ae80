use eryndor::progression_config::{
    ConfigIssue, DamageTypeConfig, ProgressionConfig, RoleConfig, SkillConfig, WeaponConfig,
};
use eryndor::roles::RoleType;
use eryndor::skills::{DamageType, SkillType, WeaponType};

fn s(x: &str) -> String {
    x.to_string()
}

fn sample_config() -> ProgressionConfig {
    ProgressionConfig {
        skills: vec![
            SkillConfig {
                id: s("swordsmanship"),
                display_name: s("Swordsmanship"),
                max_level: 100,
                associated_weapons: vec![s("sword")],
            },
            SkillConfig {
                id: s("fire_magic"),
                display_name: s("Fire Magic"),
                max_level: 50,
                associated_weapons: vec![s("fire_staff")],
            },
        ],
        weapons: vec![
            WeaponConfig {
                id: s("sword"),
                display_name: s("Sword"),
                associated_skill: s("swordsmanship"),
                damage_type: s("slashing"),
                base_damage_positive: true,
                attack_speed_positive: true,
            },
            WeaponConfig {
                id: s("fire_staff"),
                display_name: s("Fire Staff"),
                associated_skill: s("fire_magic"),
                damage_type: s("fire"),
                base_damage_positive: true,
                attack_speed_positive: true,
            },
        ],
        damage_types: vec![
            DamageTypeConfig { id: s("slashing"), display_name: s("Slashing") },
            DamageTypeConfig { id: s("fire"), display_name: s("Fire") },
        ],
        roles: vec![RoleConfig {
            id: s("tank"),
            display_name: s("Tank"),
            primary_skills: vec![s("swordsmanship")],
            secondary_skills: vec![],
            recommended_weapons: vec![s("sword")],
        }],
    }
}

#[test]
fn skill_ids_map_both_ways() {
    let config = sample_config();
    assert_eq!(config.skill_id_to_enum("swordsmanship"), Some(SkillType::Swordsmanship));
    assert_eq!(config.skill_id_to_enum("arcane_magic"), Some(SkillType::ArcanieMagic));
    assert_eq!(config.skill_id_to_enum("pickpocketing"), Some(SkillType::Pickpocketing));
    assert_eq!(config.skill_id_to_enum("Swordsmanship"), None);
    assert_eq!(config.skill_id_to_enum(""), None);
    assert_eq!(config.skill_enum_to_id(SkillType::HeavyArmor), "heavy_armor");
    assert_eq!(config.skill_enum_to_id(SkillType::ArcanieMagic), "arcane_magic");
}

#[test]
fn every_skill_round_trips() {
    let config = sample_config();
    let all = [
        SkillType::Swordsmanship, SkillType::AxeMastery, SkillType::MaceSkill,
        SkillType::HammerSkill, SkillType::SpearMastery, SkillType::DaggerMastery,
        SkillType::ShieldDefense, SkillType::Archery, SkillType::Crossbow,
        SkillType::ThrowingWeapons, SkillType::FireMagic, SkillType::IceMagic,
        SkillType::LightningMagic, SkillType::ShadowMagic, SkillType::NatureMagic,
        SkillType::ArcanieMagic, SkillType::Restoration, SkillType::Divination,
        SkillType::HeavyArmor, SkillType::MediumArmor, SkillType::LightArmor,
        SkillType::Smithing, SkillType::Alchemy, SkillType::Enchanting, SkillType::Cooking,
        SkillType::Athletics, SkillType::Stealth, SkillType::Lockpicking,
        SkillType::Pickpocketing,
    ];
    for skill in all {
        assert_eq!(config.skill_id_to_enum(config.skill_enum_to_id(skill)), Some(skill));
    }
}

#[test]
fn weapon_damage_and_role_ids() {
    let config = sample_config();
    assert_eq!(config.weapon_id_to_enum("two_handed_sword"), Some(WeaponType::TwoHandedSword));
    assert_eq!(config.weapon_id_to_enum("magical_orb"), Some(WeaponType::MagicalOrb));
    assert_eq!(config.weapon_id_to_enum("laser"), None);
    assert_eq!(config.weapon_enum_to_id(WeaponType::HandCrossbow), "hand_crossbow");
    assert_eq!(config.damage_type_id_to_enum("necrotic"), Some(DamageType::Necrotic));
    assert_eq!(config.damage_type_id_to_enum("sonic"), None);
    assert_eq!(config.damage_type_enum_to_id(DamageType::Bludgeoning), "bludgeoning");
    assert_eq!(config.role_id_to_enum("dps"), Some(RoleType::DPS));
    assert_eq!(config.role_id_to_enum("utility"), Some(RoleType::Utility));
    assert_eq!(config.role_id_to_enum("DPS"), None);
}

#[test]
fn lookups_by_enum() {
    let config = sample_config();
    let sword = config.get_weapon_config_by_enum(WeaponType::Sword).expect("sword configured");
    assert_eq!(sword.display_name, "Sword");
    assert!(config.get_weapon_config_by_enum(WeaponType::Bow).is_none());
    let fire = config.get_skill_config_by_enum(SkillType::FireMagic).expect("fire magic");
    assert_eq!(fire.max_level, 50);
    assert!(config.get_skill_config_by_enum(SkillType::Cooking).is_none());
    let slashing = config
        .get_damage_type_config_by_enum(DamageType::Slashing)
        .expect("slashing configured");
    assert_eq!(slashing.display_name, "Slashing");
    assert!(config.get_damage_type_config_by_enum(DamageType::Holy).is_none());
}

#[test]
fn consistent_config_passes() {
    let report = sample_config().validate();
    assert!(report.errors.is_empty());
    assert!(report.warnings.is_empty());
}

#[test]
fn warnings_for_suspicious_values() {
    let mut config = sample_config();
    config.skills[0].display_name = s("");
    config.skills[1].max_level = 0;
    config.weapons[1].base_damage_positive = false;
    config.weapons[1].attack_speed_positive = false;
    config.roles[0].display_name = s("");
    let report = config.validate();
    assert!(report.errors.is_empty());
    assert_eq!(report.warnings.len(), 5);
    assert!(matches!(&report.warnings[0], ConfigIssue::SkillEmptyName { skill } if skill == "swordsmanship"));
    assert!(matches!(&report.warnings[1], ConfigIssue::SkillInvalidMaxLevel { skill, max_level: 0 } if skill == "fire_magic"));
    assert!(matches!(&report.warnings[2], ConfigIssue::WeaponInvalidBaseDamage { weapon } if weapon == "fire_staff"));
    assert!(matches!(&report.warnings[3], ConfigIssue::WeaponInvalidAttackSpeed { weapon } if weapon == "fire_staff"));
    assert!(matches!(&report.warnings[4], ConfigIssue::RoleEmptyName { role } if role == "tank"));
}

#[test]
fn max_level_above_hundred_warns() {
    let mut config = sample_config();
    config.skills[0].max_level = 101;
    let report = config.validate();
    assert_eq!(report.warnings.len(), 1);
    assert!(matches!(&report.warnings[0], ConfigIssue::SkillInvalidMaxLevel { max_level: 101, .. }));
}

#[test]
fn errors_for_dangling_references() {
    let mut config = sample_config();
    config.skills[0].associated_weapons.push(s("greatsword"));
    config.weapons[0].associated_skill = s("blades");
    config.weapons[1].damage_type = s("plasma");
    config.roles[0].primary_skills.push(s("taunting"));
    config.roles[0].secondary_skills.push(s("fire_magic"));
    config.roles[0].secondary_skills.push(s("shouting"));
    config.roles[0].recommended_weapons.push(s("tower_shield"));
    let report = config.validate();
    assert!(report.warnings.is_empty());
    assert_eq!(report.errors.len(), 6);
    assert!(matches!(&report.errors[0], ConfigIssue::SkillUnknownWeapon { skill, weapon } if skill == "swordsmanship" && weapon == "greatsword"));
    assert!(matches!(&report.errors[1], ConfigIssue::WeaponUnknownSkill { weapon, skill } if weapon == "sword" && skill == "blades"));
    assert!(matches!(&report.errors[2], ConfigIssue::WeaponUnknownDamageType { weapon, damage_type } if weapon == "fire_staff" && damage_type == "plasma"));
    assert!(matches!(&report.errors[3], ConfigIssue::RoleUnknownPrimarySkill { role, skill } if role == "tank" && skill == "taunting"));
    assert!(matches!(&report.errors[4], ConfigIssue::RoleUnknownSecondarySkill { role, skill } if role == "tank" && skill == "shouting"));
    assert!(matches!(&report.errors[5], ConfigIssue::RoleUnknownRecommendedWeapon { role, weapon } if role == "tank" && weapon == "tower_shield"));
}

#[test]
fn unique_ids_are_recognised() {
    let config = sample_config();
    assert!(config.has_unique_ids());

    let mut repeated_skill = sample_config();
    repeated_skill.skills.push(SkillConfig {
        id: s("swordsmanship"),
        display_name: s("Swordsmanship Again"),
        max_level: 10,
        associated_weapons: vec![],
    });
    assert!(!repeated_skill.has_unique_ids());

    let mut repeated_damage = sample_config();
    repeated_damage.damage_types.push(DamageTypeConfig { id: s("fire"), display_name: s("Fire 2") });
    assert!(!repeated_damage.has_unique_ids());
}

#[test]
fn lookup_by_enum_returns_first_entry_with_the_id() {
    let mut config = sample_config();
    config.damage_types.push(DamageTypeConfig { id: s("fire"), display_name: s("Later Fire") });
    let found = config.get_damage_type_config_by_enum(DamageType::Fire).unwrap();
    assert_eq!(found.display_name, "Fire");
}

fn snake_case(id: &str) -> bool {
    !id.is_empty()
        && id.chars().all(|c| c.is_ascii_lowercase() || c == '_')
        && !id.starts_with('_')
        && !id.ends_with('_')
        && !id.contains("__")
}

#[test]
fn identifiers_are_snake_case() {
    let config = sample_config();
    let skills = [
        SkillType::Swordsmanship, SkillType::ThrowingWeapons, SkillType::ArcanieMagic,
        SkillType::HeavyArmor, SkillType::Pickpocketing,
    ];
    for skill in skills {
        assert!(snake_case(config.skill_enum_to_id(skill)));
    }
    assert!(snake_case(config.weapon_enum_to_id(WeaponType::TwoHandedSword)));
    assert!(snake_case(config.damage_type_enum_to_id(DamageType::Bludgeoning)));
}

#[test]
fn weapon_by_kind_is_lookup_by_identifier() {
    let config = sample_config();
    let by_kind = config.get_weapon_config_by_enum(WeaponType::Sword).unwrap();
    let by_id = config.get_weapon("sword").unwrap();
    assert_eq!(by_kind.display_name, by_id.display_name);
    assert_eq!(by_id.display_name, "Sword");
    assert!(config.get_weapon("Sword").is_none());
    assert!(config.get_weapon("bow").is_none());
    assert!(config.get_weapon_config_by_enum(WeaponType::Bow).is_none());
}
