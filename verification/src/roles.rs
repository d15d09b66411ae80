//! Roles and character models offered on the main menu, and the menu's
//! selection rules.
use vstd::prelude::*;

verus! {

/// The roles a character can be built towards.
#[derive(Debug, Clone, Copy, PartialEq, Eq, Structural)]
pub enum RoleType {
    Tank,
    Healer,
    DPS,
    Support,
    Utility,
}

/// The character models a player can pick.
#[derive(Debug, Clone, Copy, PartialEq, Eq, Structural)]
pub enum CharacterType {
    Knight,
    Mage,
    Rogue,
    Barbarian,
    RogueHooded,
}

impl RoleType {
    /// The role's name as shown on the menu.
    pub fn display_name(self) -> (name: &'static str)
        ensures
            name@ == match self {
                RoleType::Tank => "Tank"@,
                RoleType::Healer => "Healer"@,
                RoleType::DPS => "DPS"@,
                RoleType::Support => "Support"@,
                RoleType::Utility => "Utility"@,
            },
    {
        match self {
            RoleType::Tank => "Tank",
            RoleType::Healer => "Healer",
            RoleType::DPS => "DPS",
            RoleType::Support => "Support",
            RoleType::Utility => "Utility",
        }
    }

    /// The role's description as shown on the menu.
    pub fn description(self) -> (text: &'static str)
        ensures
            text@ == match self {
                RoleType::Tank => "Defensive specialist focused on protecting allies and controlling enemies. High health, strong armor, threat generation abilities."@,
                RoleType::Healer => "Support specialist focused on healing and protecting allies. Restoration magic, mana efficiency, group support abilities."@,
                RoleType::DPS => "Damage specialist focused on eliminating enemies efficiently. High damage output, critical strikes, diverse combat abilities."@,
                RoleType::Support => "Utility specialist focused on crafting and providing useful services. Resource gathering, item creation, economic gameplay."@,
                RoleType::Utility => "Versatile specialist focused on exploration and problem-solving. Stealth, lockpicking, mobility, and discovery abilities."@,
            },
    {
        match self {
            RoleType::Tank => "Defensive specialist focused on protecting allies and controlling enemies. High health, strong armor, threat generation abilities.",
            RoleType::Healer => "Support specialist focused on healing and protecting allies. Restoration magic, mana efficiency, group support abilities.",
            RoleType::DPS => "Damage specialist focused on eliminating enemies efficiently. High damage output, critical strikes, diverse combat abilities.",
            RoleType::Support => "Utility specialist focused on crafting and providing useful services. Resource gathering, item creation, economic gameplay.",
            RoleType::Utility => "Versatile specialist focused on exploration and problem-solving. Stealth, lockpicking, mobility, and discovery abilities.",
        }
    }

    /// The skills the role relies on most, as shown on the menu.
    pub fn primary_skills(self) -> (skills: &'static [&'static str])
        ensures
            skills@.map_values(|s: &str| s@) == match self {
                RoleType::Tank => seq!["Swordsmanship"@, "Shield Defense"@, "Heavy Armor"@],
                RoleType::Healer => seq!["Restoration"@, "Light Armor"@, "Divination"@],
                RoleType::DPS => seq!["Fire Magic"@, "Archery"@, "Swordsmanship"@],
                RoleType::Support => seq!["Smithing"@, "Alchemy"@, "Enchanting"@],
                RoleType::Utility => seq!["Stealth"@, "Lockpicking"@, "Athletics"@],
            },
    {
        let skills: &'static [&'static str] = match self {
            RoleType::Tank => &["Swordsmanship", "Shield Defense", "Heavy Armor"],
            RoleType::Healer => &["Restoration", "Light Armor", "Divination"],
            RoleType::DPS => &["Fire Magic", "Archery", "Swordsmanship"],
            RoleType::Support => &["Smithing", "Alchemy", "Enchanting"],
            RoleType::Utility => &["Stealth", "Lockpicking", "Athletics"],
        };
        assert(skills@.map_values(|s: &str| s@) =~= match self {
            RoleType::Tank => seq!["Swordsmanship"@, "Shield Defense"@, "Heavy Armor"@],
            RoleType::Healer => seq!["Restoration"@, "Light Armor"@, "Divination"@],
            RoleType::DPS => seq!["Fire Magic"@, "Archery"@, "Swordsmanship"@],
            RoleType::Support => seq!["Smithing"@, "Alchemy"@, "Enchanting"@],
            RoleType::Utility => seq!["Stealth"@, "Lockpicking"@, "Athletics"@],
        });
        skills
    }
}

impl RoleType {
    /// The weapons recommended for the role, as shown on the menu.
    pub fn recommended_weapons(self) -> (weapons: &'static [&'static str])
        ensures
            weapons@.map_values(|w: &str| w@) == match self {
                RoleType::Tank => seq!["Sword"@, "Shield"@, "Axe"@],
                RoleType::Healer => seq!["Restoration Staff"@],
                RoleType::DPS => seq!["Fire Staff"@, "Bow"@, "Two-handed Sword"@],
                RoleType::Support => seq!["Hammer"@, "Dagger"@],
                RoleType::Utility => seq!["Dagger"@, "Light weapons"@],
            },
    {
        let weapons: &'static [&'static str] = match self {
            RoleType::Tank => &["Sword", "Shield", "Axe"],
            RoleType::Healer => &["Restoration Staff"],
            RoleType::DPS => &["Fire Staff", "Bow", "Two-handed Sword"],
            RoleType::Support => &["Hammer", "Dagger"],
            RoleType::Utility => &["Dagger", "Light weapons"],
        };
        assert(weapons@.map_values(|w: &str| w@) =~= match self {
            RoleType::Tank => seq!["Sword"@, "Shield"@, "Axe"@],
            RoleType::Healer => seq!["Restoration Staff"@],
            RoleType::DPS => seq!["Fire Staff"@, "Bow"@, "Two-handed Sword"@],
            RoleType::Support => seq!["Hammer"@, "Dagger"@],
            RoleType::Utility => seq!["Dagger"@, "Light weapons"@],
        });
        weapons
    }
}

impl CharacterType {
    /// The model's name as shown on the menu.
    pub fn display_name(self) -> (name: &'static str)
        ensures
            name@ == match self {
                CharacterType::Knight => "Knight"@,
                CharacterType::Mage => "Mage"@,
                CharacterType::Rogue => "Rogue"@,
                CharacterType::Barbarian => "Barbarian"@,
                CharacterType::RogueHooded => "Hooded Rogue"@,
            },
    {
        match self {
            CharacterType::Knight => "Knight",
            CharacterType::Mage => "Mage",
            CharacterType::Rogue => "Rogue",
            CharacterType::Barbarian => "Barbarian",
            CharacterType::RogueHooded => "Hooded Rogue",
        }
    }

    /// The model's description as shown on the menu.
    pub fn description(self) -> (text: &'static str)
        ensures
            text@ == match self {
                CharacterType::Knight => "Noble warrior with balanced combat abilities and strong defense"@,
                CharacterType::Mage => "Scholarly spellcaster with powerful magic and mystical knowledge"@,
                CharacterType::Rogue => "Agile fighter specializing in stealth and precise strikes"@,
                CharacterType::Barbarian => "Fierce warrior with raw strength and primal combat techniques"@,
                CharacterType::RogueHooded => "Mysterious assassin with advanced stealth and utility skills"@,
            },
    {
        match self {
            CharacterType::Knight => "Noble warrior with balanced combat abilities and strong defense",
            CharacterType::Mage => "Scholarly spellcaster with powerful magic and mystical knowledge",
            CharacterType::Rogue => "Agile fighter specializing in stealth and precise strikes",
            CharacterType::Barbarian => "Fierce warrior with raw strength and primal combat techniques",
            CharacterType::RogueHooded => "Mysterious assassin with advanced stealth and utility skills",
        }
    }
}

/// What the player has picked on the main menu so far.
#[derive(Debug, Clone, Copy, PartialEq, Eq, Structural)]
pub struct CharacterSelection {
    pub selected_role: Option<RoleType>,
    pub selected_character_type: Option<CharacterType>,
    pub ready_to_start: bool,
}

/// A button of the main menu that the player pressed.
#[derive(Debug, Clone, Copy, PartialEq, Eq, Structural)]
pub enum MenuButton {
    Role(RoleType),
    Character(CharacterType),
    StartGame,
}

/// What the menu does in answer to a press.
#[derive(Debug, Clone, Copy, PartialEq, Eq, Structural)]
pub enum MenuAction {
    /// Show the role's description and preview.
    PreviewRole(RoleType),
    /// Highlight the chosen model.
    ModelChosen(CharacterType),
    /// Leave the menu and enter the game.
    EnterGame,
    /// Refuse to start: a role or a model is still missing.
    SelectionIncomplete,
}

impl Default for CharacterSelection {
    /// Nothing selected yet.
    fn default() -> (selection: Self)
        ensures
            selection.selected_role is None,
            selection.selected_character_type is None,
            !selection.ready_to_start,
    {
        CharacterSelection { selected_role: None, selected_character_type: None, ready_to_start: false }
    }
}

impl CharacterSelection {
    /// Whether both a role and a model are selected.
    pub open spec fn spec_is_complete(self) -> bool {
        self.selected_role is Some && self.selected_character_type is Some
    }

    /// The selection after a press of `button`: a role or model button
    /// records the choice, replacing an earlier one of the same kind.
    pub open spec fn after_press(self, button: MenuButton) -> CharacterSelection {
        match button {
            MenuButton::Role(role) => CharacterSelection { selected_role: Some(role), ..self },
            MenuButton::Character(model) => CharacterSelection {
                selected_character_type: Some(model),
                ..self
            },
            MenuButton::StartGame => self,
        }
    }

    /// The menu's answer to a press of `button`: the start button enters the
    /// game when both a role and a model are selected, and is refused
    /// otherwise.
    pub open spec fn answer(self, button: MenuButton) -> MenuAction {
        match button {
            MenuButton::Role(role) => MenuAction::PreviewRole(role),
            MenuButton::Character(model) => MenuAction::ModelChosen(model),
            MenuButton::StartGame => if self.spec_is_complete() {
                MenuAction::EnterGame
            } else {
                MenuAction::SelectionIncomplete
            },
        }
    }

    /// Handles a press of `button` on the main menu.
    pub fn press(&mut self, button: MenuButton) -> (action: MenuAction)
        ensures
            *final(self) == old(self).after_press(button),
            action == old(self).answer(button),
    {
        match button {
            MenuButton::Role(role) => {
                self.selected_role = Some(role);
                MenuAction::PreviewRole(role)
            },
            MenuButton::Character(model) => {
                self.selected_character_type = Some(model);
                MenuAction::ModelChosen(model)
            },
            MenuButton::StartGame => {
                if self.selected_role.is_some() && self.selected_character_type.is_some() {
                    MenuAction::EnterGame
                } else {
                    MenuAction::SelectionIncomplete
                }
            },
        }
    }
}

/// The start button enters the game exactly when a role and a model are
/// selected, and never changes the selection.
pub proof fn lemma_start_enters_iff_complete(selection: CharacterSelection)
    ensures
        (selection.answer(MenuButton::StartGame) == MenuAction::EnterGame)
            <==> selection.spec_is_complete(),
        selection.after_press(MenuButton::StartGame) == selection,
{
}

/// Once a role and a model are selected, every further press keeps the
/// selection complete.
pub proof fn lemma_selection_stays_complete(selection: CharacterSelection, button: MenuButton)
    requires
        selection.spec_is_complete(),
    ensures
        selection.after_press(button).spec_is_complete(),
{
}

/// Pressing a role button and a model button, in either order and from any
/// selection, makes the start button enter the game with that role and model.
pub proof fn lemma_role_and_model_enable_start(
    selection: CharacterSelection,
    role: RoleType,
    model: CharacterType,
)
    ensures
        ({
            let s = selection.after_press(MenuButton::Role(role)).after_press(
                MenuButton::Character(model),
            );
            s.answer(MenuButton::StartGame) == MenuAction::EnterGame && s.selected_role == Some(
                role,
            ) && s.selected_character_type == Some(model)
        }),
        ({
            let s = selection.after_press(MenuButton::Character(model)).after_press(
                MenuButton::Role(role),
            );
            s.answer(MenuButton::StartGame) == MenuAction::EnterGame && s.selected_role == Some(
                role,
            ) && s.selected_character_type == Some(model)
        }),
{
}

} // verus!
