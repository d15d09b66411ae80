use eryndor::cycle::{next_index, previous_index};
use eryndor::loadouts::{
    create_dps_loadout, create_healer_loadout, create_loadout_for_role, create_support_loadout,
    create_tank_loadout, create_utility_loadout, primary_role_for_scores, ArmorType, LoadoutSkills,
};
use eryndor::roles::RoleType;
use eryndor::skills::WeaponType;

fn skills() -> LoadoutSkills {
    LoadoutSkills {
        swordsmanship: 0,
        axe_mastery: 0,
        shield_defense: 0,
        restoration: 0,
        fire_magic: 0,
        archery: 0,
        smithing: 0,
        alchemy: 0,
        stealth: 0,
        lockpicking: 0,
    }
}

#[test]
fn tank_loadout_for_beginner_and_veteran() {
    let beginner = create_tank_loadout(&skills());
    assert_eq!(beginner.name, "Tank Build");
    assert_eq!(beginner.primary_weapon, WeaponType::Sword);
    assert_eq!(beginner.secondary_item, None);
    assert_eq!(beginner.armor_type, ArmorType::Heavy);
    assert_eq!(beginner.active_abilities, vec!["Basic Slash", "Heavy Strike", "Block"]);

    let veteran = create_tank_loadout(&LoadoutSkills { axe_mastery: 7, shield_defense: 10, ..skills() });
    assert_eq!(veteran.primary_weapon, WeaponType::Axe);
    assert_eq!(veteran.secondary_item, Some(WeaponType::Shield));
    assert_eq!(veteran.active_abilities, vec!["Basic Slash", "Shield Bash", "Taunt"]);

    let middle = create_tank_loadout(&LoadoutSkills { shield_defense: 4, ..skills() });
    assert_eq!(middle.secondary_item, None);
    assert_eq!(middle.active_abilities, vec!["Basic Slash", "Shield Bash", "Block"]);
}

#[test]
fn healer_loadout_thresholds() {
    let l = create_healer_loadout(&LoadoutSkills { restoration: 5, ..skills() });
    assert_eq!(l.name, "Healer Build");
    assert_eq!(l.primary_weapon, WeaponType::RestorationStaff);
    assert_eq!(l.armor_type, ArmorType::Light);
    assert_eq!(l.active_abilities, vec!["Heal", "Renew", "Renew"]);
    let l = create_healer_loadout(&LoadoutSkills { restoration: 10, ..skills() });
    assert_eq!(l.active_abilities, vec!["Heal", "Renew", "Group Heal"]);
    let l = create_healer_loadout(&skills());
    assert_eq!(l.active_abilities, vec!["Heal", "Heal", "Renew"]);
}

#[test]
fn dps_loadout_weapon_choice() {
    let fire = create_dps_loadout(&skills());
    assert_eq!(fire.primary_weapon, WeaponType::FireStaff);
    assert_eq!(fire.armor_type, ArmorType::Light);
    assert_eq!(fire.active_abilities, vec!["Firebolt"]);
    let bow = create_dps_loadout(&LoadoutSkills { archery: 3, swordsmanship: 3, ..skills() });
    assert_eq!(bow.primary_weapon, WeaponType::Bow);
    assert_eq!(bow.armor_type, ArmorType::Medium);
    assert_eq!(bow.active_abilities, vec!["Quick Shot"]);
    let sword = create_dps_loadout(&LoadoutSkills { swordsmanship: 4, archery: 3, ..skills() });
    assert_eq!(sword.primary_weapon, WeaponType::TwoHandedSword);
    assert_eq!(sword.active_abilities, vec!["Basic Slash"]);
}

#[test]
fn support_and_utility_loadouts() {
    let support = create_support_loadout(&LoadoutSkills { alchemy: 2, ..skills() });
    assert_eq!(support.name, "Support Build");
    assert_eq!(support.primary_weapon, WeaponType::Dagger);
    assert_eq!(support.armor_type, ArmorType::Medium);
    assert_eq!(support.active_abilities, vec!["Craft", "Repair", "Gather"]);
    let smith = create_support_loadout(&LoadoutSkills { smithing: 2, alchemy: 2, ..skills() });
    assert_eq!(smith.primary_weapon, WeaponType::Hammer);

    let utility = create_utility_loadout(&LoadoutSkills { lockpicking: 5, stealth: 10, ..skills() });
    assert_eq!(utility.name, "Utility Build");
    assert_eq!(utility.primary_weapon, WeaponType::Dagger);
    assert_eq!(utility.active_abilities, vec!["Stealth", "Advanced Lockpicking", "Invisibility"]);
    let novice = create_utility_loadout(&skills());
    assert_eq!(novice.active_abilities, vec!["Stealth", "Lockpicking", "Hide"]);
}

#[test]
fn primary_role_is_last_highest_score() {
    assert_eq!(primary_role_for_scores([5, 1, 1, 1, 1]), RoleType::Tank);
    assert_eq!(primary_role_for_scores([1, 1, 9, 1, 1]), RoleType::DPS);
    // ties go to the later role
    assert_eq!(primary_role_for_scores([3, 3, 1, 1, 1]), RoleType::Healer);
    assert_eq!(primary_role_for_scores([0, 0, 0, 0, 0]), RoleType::Utility);
    assert_eq!(primary_role_for_scores([7, 2, 7, 7, 1]), RoleType::Support);
}

#[test]
fn loadout_for_role_dispatches() {
    let sk = LoadoutSkills { smithing: 1, ..skills() };
    assert_eq!(create_loadout_for_role(RoleType::Tank, &sk).name, "Tank Build");
    assert_eq!(create_loadout_for_role(RoleType::Healer, &sk).name, "Healer Build");
    assert_eq!(create_loadout_for_role(RoleType::DPS, &sk).name, "DPS Build");
    assert_eq!(create_loadout_for_role(RoleType::Support, &sk).primary_weapon, WeaponType::Hammer);
    assert_eq!(create_loadout_for_role(RoleType::Utility, &sk).name, "Utility Build");
}

#[test]
fn loadout_cycling_wraps() {
    assert_eq!(next_index(0, 3), 1);
    assert_eq!(next_index(2, 3), 0);
    assert_eq!(previous_index(0, 3), 2);
    assert_eq!(previous_index(2, 3), 1);
    assert_eq!(next_index(0, 1), 0);
    assert_eq!(previous_index(0, 1), 0);
    for len in 1..6usize {
        for i in 0..len {
            assert_eq!(previous_index(next_index(i, len), len), i);
            assert_eq!(next_index(previous_index(i, len), len), i);
        }
    }
    assert_eq!(next_index(usize::MAX, 7), (((usize::MAX as u128) + 1) % 7) as usize);
}
