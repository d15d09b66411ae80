use eryndor::roles::{CharacterSelection, CharacterType, MenuAction, MenuButton, RoleType};

#[test]
fn role_texts() {
    assert_eq!(RoleType::Tank.display_name(), "Tank");
    assert_eq!(RoleType::DPS.display_name(), "DPS");
    assert!(RoleType::Healer.description().starts_with("Support specialist focused on healing"));
    assert_eq!(RoleType::Tank.primary_skills(), &["Swordsmanship", "Shield Defense", "Heavy Armor"]);
    assert_eq!(RoleType::Utility.primary_skills().join(", "), "Stealth, Lockpicking, Athletics");
    assert_eq!(RoleType::Healer.recommended_weapons(), &["Restoration Staff"]);
    assert_eq!(RoleType::DPS.recommended_weapons(), &["Fire Staff", "Bow", "Two-handed Sword"]);
}

#[test]
fn character_texts() {
    assert_eq!(CharacterType::RogueHooded.display_name(), "Hooded Rogue");
    assert_eq!(CharacterType::Mage.display_name(), "Mage");
    assert_eq!(
        CharacterType::Barbarian.description(),
        "Fierce warrior with raw strength and primal combat techniques"
    );
}

#[test]
fn start_needs_role_and_model() {
    let mut selection = CharacterSelection::default();
    assert_eq!(selection.press(MenuButton::StartGame), MenuAction::SelectionIncomplete);
    assert_eq!(selection.press(MenuButton::Role(RoleType::Healer)), MenuAction::PreviewRole(RoleType::Healer));
    assert_eq!(selection.press(MenuButton::StartGame), MenuAction::SelectionIncomplete);
    assert_eq!(
        selection.press(MenuButton::Character(CharacterType::Mage)),
        MenuAction::ModelChosen(CharacterType::Mage)
    );
    assert_eq!(selection.press(MenuButton::Role(RoleType::Tank)), MenuAction::PreviewRole(RoleType::Tank));
    assert_eq!(selection.press(MenuButton::StartGame), MenuAction::EnterGame);
    assert_eq!(selection.selected_role, Some(RoleType::Tank));
    assert_eq!(selection.selected_character_type, Some(CharacterType::Mage));
    assert!(!selection.ready_to_start);
}

#[test]
fn model_alone_is_not_enough() {
    let mut selection = CharacterSelection::default();
    selection.press(MenuButton::Character(CharacterType::Knight));
    assert_eq!(selection.press(MenuButton::StartGame), MenuAction::SelectionIncomplete);
    assert_eq!(selection.selected_role, None);
}
