//! Game rules of the Eryndor role-playing game: character progression and
//! its configuration, loadouts, quest rewards and the investigation quest,
//! combat targeting, the main menu, the quest journal, dialogue, movement
//! and animation states, and the world's environment objects.
pub mod combat;
pub mod cycle;
pub mod dialogue;
pub mod input;
pub mod investigation;
pub mod journal;
pub mod journal_view;
pub mod loadouts;
pub mod movement_states;
pub mod progression_config;
pub mod quest_rewards;
pub mod roles;
pub mod skills;
pub mod text;
pub mod world_objects;
