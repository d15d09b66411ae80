# eryndor

The rules of the Eryndor role-playing game as a Verus-verified library.

- `src/` holds the rules, each function with a contract that Verus proves:
  progression identifiers and the configuration check (`skills`,
  `progression_config`), loadouts (`loadouts`), level-scaled quest rewards
  (`quest_rewards`), the merchant's-mystery investigation (`investigation`),
  combat targeting (`combat`), the main menu (`roles`), the quest journal
  and what it shows (`journal`, `journal_view`), conversations (`dialogue`), movement and animation states
  (`movement_states`), input meaning (`input`), environment objects
  (`world_objects`), and list cycling and text comparison helpers (`cycle`,
  `text`). Laws that relate several functions are public proof functions
  whose names start with `lemma_`.
- `tests/` runs the library on concrete values.
- `app/` is a text session of the game (`main.rs`) and what the library
  leaves to the engine side: floating-point health and terrain noise,
  random placement, the quest file, key bindings, and the texts of the
  journal, conversations and the configuration check laid out as lines.
