use eryndor::loadouts::{
    create_tank_loadout, LoadoutEvent, LoadoutKey, LoadoutSet, LoadoutSkills,
};
use eryndor::roles::RoleType;

fn skills() -> LoadoutSkills {
    LoadoutSkills {
        swordsmanship: 0,
        axe_mastery: 0,
        shield_defense: 0,
        restoration: 0,
        fire_magic: 0,
        archery: 0,
        smithing: 0,
        alchemy: 0,
        stealth: 0,
        lockpicking: 0,
    }
}

fn set_with(count: usize, can_switch: bool) -> LoadoutSet {
    let mut loadouts = Vec::new();
    for _ in 0..count {
        loadouts.push(create_tank_loadout(&skills()));
    }
    LoadoutSet { loadouts, active_loadout_index: 0, can_switch_loadouts: can_switch }
}

#[test]
fn rest_point_toggles_switching() {
    let mut set = set_with(2, false);
    assert_eq!(set.apply_loadout_key(LoadoutKey::ToggleRestPoint, &skills(), [0; 5]), LoadoutEvent::SwitchingEnabled);
    assert!(set.can_switch_loadouts);
    assert_eq!(set.apply_loadout_key(LoadoutKey::ToggleRestPoint, &skills(), [0; 5]), LoadoutEvent::SwitchingDisabled);
    assert!(!set.can_switch_loadouts);
    assert_eq!(set.loadouts.len(), 2);
}

#[test]
fn keys_are_ignored_away_from_rest_points() {
    let mut set = set_with(3, false);
    assert_eq!(set.apply_loadout_key(LoadoutKey::Next, &skills(), [0; 5]), LoadoutEvent::Ignored);
    assert_eq!(set.apply_loadout_key(LoadoutKey::Previous, &skills(), [0; 5]), LoadoutEvent::Ignored);
    assert_eq!(set.apply_loadout_key(LoadoutKey::CreateForBestRole, &skills(), [1, 2, 3, 4, 5]), LoadoutEvent::Ignored);
    assert_eq!(set.active_loadout_index, 0);
    assert_eq!(set.loadouts.len(), 3);
}

#[test]
fn next_and_previous_wrap_around() {
    let mut set = set_with(3, true);
    assert_eq!(set.apply_loadout_key(LoadoutKey::Next, &skills(), [0; 5]), LoadoutEvent::Switched(1));
    assert_eq!(set.apply_loadout_key(LoadoutKey::Next, &skills(), [0; 5]), LoadoutEvent::Switched(2));
    assert_eq!(set.apply_loadout_key(LoadoutKey::Next, &skills(), [0; 5]), LoadoutEvent::Switched(0));
    assert_eq!(set.apply_loadout_key(LoadoutKey::Previous, &skills(), [0; 5]), LoadoutEvent::Switched(2));
    assert_eq!(set.active_loadout_index, 2);
}

#[test]
fn single_or_no_loadout_does_not_switch() {
    let mut one = set_with(1, true);
    assert_eq!(one.apply_loadout_key(LoadoutKey::Previous, &skills(), [0; 5]), LoadoutEvent::Ignored);
    assert_eq!(one.apply_loadout_key(LoadoutKey::Next, &skills(), [0; 5]), LoadoutEvent::Switched(0));
    let mut none = set_with(0, true);
    assert_eq!(none.apply_loadout_key(LoadoutKey::Next, &skills(), [0; 5]), LoadoutEvent::Ignored);
    assert!(none.active_loadout().is_none());
}

#[test]
fn create_adds_loadout_for_best_role() {
    let mut set = set_with(1, true);
    let event = set.apply_loadout_key(LoadoutKey::CreateForBestRole, &skills(), [1, 9, 3, 4, 5]);
    assert_eq!(event, LoadoutEvent::Created(RoleType::Healer, 1));
    assert_eq!(set.loadouts.len(), 2);
    assert_eq!(set.active_loadout_index, 1);
    assert_eq!(set.active_loadout().unwrap().name, "Healer Build");
}
