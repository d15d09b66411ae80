//! The quest journal window: which tab it shows, which quest is selected, and
//! how the keys move between them.
use vstd::prelude::*;
use crate::cycle::{next_index, previous_index};

verus! {

/// The tabs of the quest journal.
#[derive(Debug, Clone, Copy, PartialEq, Eq, Structural)]
pub enum JournalTabType {
    ActiveQuests,
    CompletedQuests,
    Clues,
    Notes,
}

impl Default for JournalTabType {
    /// The journal opens on the active quests.
    fn default() -> (tab: Self)
        ensures
            tab == JournalTabType::ActiveQuests,
    {
        JournalTabType::ActiveQuests
    }
}

/// The state of the quest journal window.
pub struct QuestJournalState {
    pub is_visible: bool,
    pub selected_quest: Option<String>,
    pub current_tab: JournalTabType,
    pub search_filter: String,
}

/// A direction in which the quest selection moves.
#[derive(Debug, Clone, Copy, PartialEq, Eq, Structural)]
pub enum SelectionStep {
    Up,
    Down,
}

/// What must happen to the journal window so that it matches the state.
#[derive(Debug, Clone, Copy, PartialEq, Eq, Structural)]
pub enum JournalWindowAction {
    Create,
    Remove,
    Keep,
}

/// The tab that a number key opens: 1 the active quests, 2 the completed
/// quests, 3 the clues, 4 the notes.
pub fn tab_for_digit(digit: u8) -> (tab: Option<JournalTabType>)
    ensures
        tab == match digit {
            1 => Some(JournalTabType::ActiveQuests),
            2 => Some(JournalTabType::CompletedQuests),
            3 => Some(JournalTabType::Clues),
            4 => Some(JournalTabType::Notes),
            _ => None::<JournalTabType>,
        },
{
    match digit {
        1 => Some(JournalTabType::ActiveQuests),
        2 => Some(JournalTabType::CompletedQuests),
        3 => Some(JournalTabType::Clues),
        4 => Some(JournalTabType::Notes),
        _ => None,
    }
}

/// The position of the selected quest among `quest_ids`: that of the first
/// entry with the selected identifier, or 0 when nothing is selected or the
/// selection is not among them.
pub open spec fn selection_position(selected: Option<String>, quest_ids: Seq<String>) -> int {
    match selected {
        Some(id) => if exists|j: int| 0 <= j < quest_ids.len() && #[trigger] quest_ids[j]@ == id@ {
            choose|j: int|
                0 <= j < quest_ids.len() && quest_ids[j]@ == id@ && forall|k: int|
                    0 <= k < j ==> #[trigger] quest_ids[k]@ != id@
        } else {
            0
        },
        None => 0,
    }
}

/// The position of the first entry of `ids` equal to `id`.
fn position_of(ids: &Vec<String>, id: &String) -> (position: Option<usize>)
    ensures
        match position {
            Some(k) => k < ids@.len() && ids@[k as int]@ == id@ && forall|m: int|
                0 <= m < k ==> #[trigger] ids@[m]@ != id@,
            None => forall|m: int| 0 <= m < ids@.len() ==> #[trigger] ids@[m]@ != id@,
        },
{
    let mut k: usize = 0;
    while k < ids.len()
        invariant
            k <= ids@.len(),
            forall|j: int| 0 <= j < k ==> #[trigger] ids@[j]@ != id@,
        decreases ids@.len() - k,
    {
        if ids[k] == *id {
            return Some(k);
        }
        k = k + 1;
    }
    None
}

proof fn lemma_selection_position(id: String, ids: Seq<String>, k: int)
    requires
        0 <= k < ids.len(),
        ids[k]@ == id@,
        forall|m: int| 0 <= m < k ==> #[trigger] ids[m]@ != id@,
    ensures
        selection_position(Some(id), ids) == k,
{
    let c = choose|j: int|
        0 <= j < ids.len() && ids[j]@ == id@ && forall|m: int|
            0 <= m < j ==> #[trigger] ids[m]@ != id@;
    assert(0 <= c < ids.len() && ids[c]@ == id@ && forall|m: int|
        0 <= m < c ==> #[trigger] ids[m]@ != id@);
    if c < k {
        assert(ids[c]@ != id@);
    } else if c > k {
        assert(ids[k]@ != id@);
    }
}

impl Default for QuestJournalState {
    /// A hidden journal on the active quests tab, with nothing selected.
    fn default() -> (state: Self)
        ensures
            !state.is_visible,
            state.selected_quest is None,
            state.current_tab == JournalTabType::ActiveQuests,
            state.search_filter@ == Seq::<char>::empty(),
    {
        QuestJournalState {
            is_visible: false,
            selected_quest: None,
            current_tab: JournalTabType::ActiveQuests,
            search_filter: String::new(),
        }
    }
}

impl QuestJournalState {
    /// Opens a closed journal and closes an open one.
    pub fn toggle_visibility(&mut self)
        ensures
            final(self).is_visible == !old(self).is_visible,
            final(self).selected_quest == old(self).selected_quest,
            final(self).current_tab == old(self).current_tab,
            final(self).search_filter == old(self).search_filter,
    {
        self.is_visible = !self.is_visible;
    }

    /// Shows `tab` and clears the quest selection, when the journal is open;
    /// a closed journal is left as it is.
    pub fn switch_tab(&mut self, tab: JournalTabType)
        ensures
            old(self).is_visible ==> final(self).current_tab == tab,
            old(self).is_visible ==> final(self).selected_quest is None,
            !old(self).is_visible ==> final(self).current_tab == old(self).current_tab
                && final(self).selected_quest == old(self).selected_quest,
            final(self).is_visible == old(self).is_visible,
            final(self).search_filter == old(self).search_filter,
    {
        if self.is_visible {
            self.current_tab = tab;
            self.selected_quest = None;
        }
    }

    /// Moves the quest selection one step through `quest_ids` (the active
    /// quests, in the order the journal lists them), wrapping at both ends.
    /// Only an open journal on the active quests tab with at least one active
    /// quest reacts.
    pub fn step_quest_selection(&mut self, step: SelectionStep, quest_ids: &Vec<String>)
        ensures
            ({
                let reacts = old(self).is_visible && old(self).current_tab
                    == JournalTabType::ActiveQuests && quest_ids@.len() > 0;
                let current = selection_position(old(self).selected_quest, quest_ids@);
                let len = quest_ids@.len() as int;
                let target = match step {
                    SelectionStep::Up => if current > 0 { current - 1 } else { len - 1 },
                    SelectionStep::Down => (current + 1) % len,
                };
                &&& reacts ==> (final(self).selected_quest matches Some(id) && id@
                    == quest_ids@[target]@)
                &&& !reacts ==> final(self).selected_quest == old(self).selected_quest
            }),
            final(self).is_visible == old(self).is_visible,
            final(self).current_tab == old(self).current_tab,
            final(self).search_filter == old(self).search_filter,
    {
        if !self.is_visible || self.current_tab != JournalTabType::ActiveQuests {
            return;
        }
        let len = quest_ids.len();
        if len == 0 {
            return;
        }
        let current: usize = match &self.selected_quest {
            Some(id) => match position_of(quest_ids, id) {
                Some(k) => k,
                None => 0,
            },
            None => 0,
        };
        proof {
            if self.selected_quest is Some {
                let id = self.selected_quest->0;
                if current < len && quest_ids@[current as int]@ == id@ {
                    lemma_selection_position(id, quest_ids@, current as int);
                }
            }
        }
        assert(current == selection_position(self.selected_quest, quest_ids@));
        let target = match step {
            SelectionStep::Up => previous_index(current, len),
            SelectionStep::Down => next_index(current, len),
        };
        self.selected_quest = Some(quest_ids[target].clone());
    }

    /// Whether the journal window must be created, removed or kept, given
    /// whether it currently exists.
    pub fn window_action(&self, window_exists: bool) -> (action: JournalWindowAction)
        ensures
            action == if self.is_visible && !window_exists {
                JournalWindowAction::Create
            } else if !self.is_visible && window_exists {
                JournalWindowAction::Remove
            } else {
                JournalWindowAction::Keep
            },
    {
        if self.is_visible && !window_exists {
            JournalWindowAction::Create
        } else if !self.is_visible && window_exists {
            JournalWindowAction::Remove
        } else {
            JournalWindowAction::Keep
        }
    }
}

/// The selection moves from the first quest whose identifier is the
/// selected one; when nothing is selected, or the selection is not among the
/// quests, it moves from the first quest.
pub proof fn lemma_selection_starts_at_selected_quest(selected: Option<String>, ids: Seq<String>, k: int)
    ensures
        (selected matches Some(id) && 0 <= k < ids.len() && ids[k]@ == id@ && (forall|m: int|
            0 <= m < k ==> #[trigger] ids[m]@ != id@)) ==> selection_position(selected, ids) == k,
        (selected is None || (selected matches Some(id) && (forall|m: int|
            0 <= m < ids.len() ==> #[trigger] ids[m]@ != id@))) ==> selection_position(selected, ids)
            == 0,
{
    if let Some(id) = selected {
        if 0 <= k < ids.len() && ids[k]@ == id@ && (forall|m: int|
            0 <= m < k ==> #[trigger] ids[m]@ != id@) {
            lemma_selection_position(id, ids, k);
        }
    }
}

} // verus!
