use eryndor::journal::{
    tab_for_digit, JournalTabType, JournalWindowAction, QuestJournalState, SelectionStep,
};

fn ids() -> Vec<String> {
    vec!["a".to_string(), "b".to_string(), "c".to_string()]
}

#[test]
fn journal_defaults_and_toggle() {
    assert_eq!(JournalTabType::default(), JournalTabType::ActiveQuests);
    let mut state = QuestJournalState::default();
    assert!(!state.is_visible);
    state.toggle_visibility();
    assert!(state.is_visible);
    state.toggle_visibility();
    assert!(!state.is_visible);
}

#[test]
fn tabs_switch_only_when_open() {
    let mut state = QuestJournalState::default();
    state.selected_quest = Some("a".to_string());
    state.switch_tab(JournalTabType::Clues);
    assert_eq!(state.current_tab, JournalTabType::ActiveQuests);
    assert_eq!(state.selected_quest.as_deref(), Some("a"));
    state.toggle_visibility();
    state.switch_tab(JournalTabType::Notes);
    assert_eq!(state.current_tab, JournalTabType::Notes);
    assert_eq!(state.selected_quest, None);
}

#[test]
fn quest_selection_wraps() {
    let mut state = QuestJournalState::default();
    state.toggle_visibility();
    state.step_quest_selection(SelectionStep::Down, &ids());
    assert_eq!(state.selected_quest.as_deref(), Some("b"));
    state.step_quest_selection(SelectionStep::Down, &ids());
    state.step_quest_selection(SelectionStep::Down, &ids());
    assert_eq!(state.selected_quest.as_deref(), Some("a"));
    state.step_quest_selection(SelectionStep::Up, &ids());
    assert_eq!(state.selected_quest.as_deref(), Some("c"));

    let mut fresh = QuestJournalState::default();
    fresh.toggle_visibility();
    fresh.step_quest_selection(SelectionStep::Up, &ids());
    assert_eq!(fresh.selected_quest.as_deref(), Some("c"));

    // a selection that is no longer active counts as the first entry
    fresh.selected_quest = Some("gone".to_string());
    fresh.step_quest_selection(SelectionStep::Down, &ids());
    assert_eq!(fresh.selected_quest.as_deref(), Some("b"));
}

#[test]
fn quest_selection_ignored_elsewhere() {
    let mut closed = QuestJournalState::default();
    closed.step_quest_selection(SelectionStep::Down, &ids());
    assert_eq!(closed.selected_quest, None);

    let mut other_tab = QuestJournalState::default();
    other_tab.toggle_visibility();
    other_tab.switch_tab(JournalTabType::Clues);
    other_tab.step_quest_selection(SelectionStep::Down, &ids());
    assert_eq!(other_tab.selected_quest, None);

    let mut empty = QuestJournalState::default();
    empty.toggle_visibility();
    empty.step_quest_selection(SelectionStep::Down, &Vec::new());
    assert_eq!(empty.selected_quest, None);
}

#[test]
fn window_follows_visibility() {
    let mut state = QuestJournalState::default();
    assert_eq!(state.window_action(false), JournalWindowAction::Keep);
    assert_eq!(state.window_action(true), JournalWindowAction::Remove);
    state.toggle_visibility();
    assert_eq!(state.window_action(false), JournalWindowAction::Create);
    assert_eq!(state.window_action(true), JournalWindowAction::Keep);
}

#[test]
fn digits_open_tabs() {
    assert_eq!(tab_for_digit(1), Some(JournalTabType::ActiveQuests));
    assert_eq!(tab_for_digit(2), Some(JournalTabType::CompletedQuests));
    assert_eq!(tab_for_digit(3), Some(JournalTabType::Clues));
    assert_eq!(tab_for_digit(4), Some(JournalTabType::Notes));
    assert_eq!(tab_for_digit(5), None);
}
