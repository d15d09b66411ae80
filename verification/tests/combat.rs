use eryndor::combat::{CombatState, EnemyType};

#[test]
fn enemy_names_and_rewards() {
    assert_eq!(EnemyType::ForestGuardian.name(), "Forest Guardian");
    assert_eq!(EnemyType::RockElemental.name(), "Rock Elemental");
    assert_eq!(EnemyType::WildBoar.name(), "Wild Boar");
    assert_eq!(EnemyType::ForestGuardian.experience_reward(), 50);
    assert_eq!(EnemyType::RockElemental.experience_reward(), 75);
    assert_eq!(EnemyType::WildBoar.experience_reward(), 40);
}

#[test]
fn targets_cycle_nearest_first() {
    let mut state = CombatState::default();
    let candidates = vec![30, 10, 20];
    state.cycle_target(&candidates);
    assert_eq!(state.player_target, Some(30));
    assert!(state.in_combat);
    state.cycle_target(&candidates);
    assert_eq!(state.player_target, Some(10));
    state.cycle_target(&candidates);
    assert_eq!(state.player_target, Some(20));
    state.cycle_target(&candidates);
    assert_eq!(state.player_target, Some(30));
}

#[test]
fn target_out_of_range_restarts_at_nearest() {
    let mut state = CombatState { player_target: Some(99), in_combat: true };
    state.cycle_target(&vec![5, 6]);
    assert_eq!(state.player_target, Some(5));
}

#[test]
fn no_candidates_leaves_combat() {
    let mut state = CombatState { player_target: Some(5), in_combat: true };
    state.cycle_target(&Vec::new());
    assert_eq!(state.player_target, None);
    assert!(!state.in_combat);
    let mut again = CombatState { player_target: Some(1), in_combat: true };
    again.lose_target();
    assert_eq!(again, CombatState::default());
}
