//! What the quest journal shows: the entries of the active quests, the
//! details of the selected quest, the completed quests, and the headers of
//! each tab. The journal window lays these out; the texts and marks are
//! computed here.
use vstd::prelude::*;
use vstd::string::*;
use crate::investigation::{action_name, EvidenceStrength, InvestigationAction};
use crate::journal::JournalTabType;
use crate::text::{decimal, decimal_text};

verus! {

/// A quest in progress, as the journal reads it.
pub struct ActiveQuest {
    pub quest_id: String,
    pub current_phase: String,
    pub evidence_strength: EvidenceStrength,
    pub discovered_clues: Vec<String>,
    pub completed_objectives: Vec<String>,
    pub investigation_notes: Vec<String>,
}

/// A phase of a quest definition.
pub struct QuestPhaseView {
    pub phase_id: String,
    pub description: String,
    /// The descriptions of the phase's objectives.
    pub objectives: Vec<String>,
}

/// A quest definition, as the journal reads it.
pub struct QuestDefinitionView {
    pub id: String,
    pub title: String,
    pub description: String,
    pub phases: Vec<QuestPhaseView>,
}

/// The record of a discovered clue.
pub struct ClueRecord {
    pub clue_id: String,
    pub quest_id: String,
    pub description: String,
    pub discovery_method: String,
    pub importance_weight: u32,
    /// The clues this one points to.
    pub related_clues: Vec<String>,
}

/// A completed quest and how it was resolved.
pub struct CompletedQuest {
    pub quest_id: String,
    pub resolution_path: String,
}

/// One entry of the active quests list.
pub struct QuestEntryView {
    pub quest_id: String,
    pub title: String,
    pub phase_text: String,
    pub evidence: EvidenceStrength,
    pub evidence_text: String,
    pub selected: bool,
}

/// One objective of the current phase, with its mark.
pub struct ObjectiveView {
    pub text: String,
    pub completed: bool,
}

/// The current phase of the selected quest.
pub struct PhaseDetailsView {
    pub description: String,
    pub objectives: Vec<ObjectiveView>,
}

/// A discovered clue in the details of a quest.
pub struct ClueView {
    pub description: String,
    pub importance_weight: u32,
    pub discovery_method: String,
    /// "Importance: " and the weight, " | Found: " and the method.
    pub info_text: String,
}

/// The details panel for the selected quest.
pub struct QuestDetailsView {
    pub title: String,
    pub description: String,
    pub phase: Option<PhaseDetailsView>,
    pub clues: Vec<ClueView>,
    pub notes: Vec<String>,
}

/// What the details panel shows.
pub enum QuestDetails {
    /// No quest is selected: the panel asks the player to select one.
    NoSelection,
    /// The selected quest is not active or has no definition: the panel is empty.
    Unavailable,
    /// The selected quest's details.
    Shown(QuestDetailsView),
}

/// `text` with every underscore turned into a space.
pub open spec fn underscores_to_spaces(text: Seq<char>) -> Seq<char> {
    Seq::new(text.len(), |i: int| if text[i] == '_' { ' ' } else { text[i] })
}

/// The label of an evidence strength.
pub open spec fn evidence_text(evidence: EvidenceStrength) -> Seq<char> {
    match evidence {
        EvidenceStrength::NoEvidence => "Evidence: None"@,
        EvidenceStrength::Weak => "Evidence: Weak"@,
        EvidenceStrength::Moderate => "Evidence: Moderate"@,
        EvidenceStrength::Strong => "Evidence: Strong"@,
        EvidenceStrength::Overwhelming => "Evidence: Overwhelming"@,
    }
}

/// The position of the first definition with identifier `id` at or after
/// `start`, or -1.
pub open spec fn definition_index(defs: Seq<QuestDefinitionView>, id: Seq<char>, start: int) -> int
    decreases defs.len() - start,
{
    if start < 0 || start >= defs.len() {
        -1
    } else if defs[start].id@ == id {
        start
    } else {
        definition_index(defs, id, start + 1)
    }
}

/// The position of the first active quest with identifier `id` at or after
/// `start`, or -1.
pub open spec fn active_index(active: Seq<ActiveQuest>, id: Seq<char>, start: int) -> int
    decreases active.len() - start,
{
    if start < 0 || start >= active.len() {
        -1
    } else if active[start].quest_id@ == id {
        start
    } else {
        active_index(active, id, start + 1)
    }
}

/// The position of the first phase with identifier `id` at or after
/// `start`, or -1.
pub open spec fn phase_index(phases: Seq<QuestPhaseView>, id: Seq<char>, start: int) -> int
    decreases phases.len() - start,
{
    if start < 0 || start >= phases.len() {
        -1
    } else if phases[start].phase_id@ == id {
        start
    } else {
        phase_index(phases, id, start + 1)
    }
}

/// The position of the first clue record with identifier `id` at or after
/// `start`, or -1.
pub open spec fn clue_index(records: Seq<ClueRecord>, id: Seq<char>, start: int) -> int
    decreases records.len() - start,
{
    if start < 0 || start >= records.len() {
        -1
    } else if records[start].clue_id@ == id {
        start
    } else {
        clue_index(records, id, start + 1)
    }
}

/// The title of the quest `id`: that of its definition, else the id itself.
pub open spec fn title_or_id(defs: Seq<QuestDefinitionView>, id: Seq<char>) -> Seq<char> {
    let k = definition_index(defs, id, 0);
    if k >= 0 {
        defs[k].title@
    } else {
        id
    }
}

/// Whether one of `items` reads `text`.
pub open spec fn has_text(items: Seq<String>, text: Seq<char>) -> bool {
    exists|j: int| 0 <= j < items.len() && items[j]@ == text
}

/// The mark before an objective: a tick when completed, a bullet otherwise.
pub open spec fn objective_text(description: Seq<char>, completed: bool) -> Seq<char> {
    (if completed { "✓ "@ } else { "• "@ }) + underscores_to_spaces(description)
}

/// The line under a clue in a quest's details.
pub open spec fn clue_info_text(weight: u32, method: Seq<char>) -> Seq<char> {
    "Importance: "@ + decimal(weight as nat) + " | Found: "@ + method
}

/// The line under a clue in the list of all discovered clues.
pub open spec fn clue_list_info_text(record: ClueRecord) -> Seq<char> {
    "Quest: "@ + record.quest_id@ + " | Importance: "@ + decimal(record.importance_weight as nat)
        + " | Method: "@ + record.discovery_method@
}

/// The views of those discovered clues that have a record, in order.
pub open spec fn clue_views_of(records: Seq<ClueRecord>, ids: Seq<String>) -> Seq<(Seq<char>, u32, Seq<char>, Seq<char>)>
    decreases ids.len(),
{
    if ids.len() == 0 {
        Seq::empty()
    } else {
        let rest = clue_views_of(records, ids.drop_last());
        let k = clue_index(records, ids.last()@, 0);
        if k >= 0 {
            rest.push(
                (
                    records[k].description@,
                    records[k].importance_weight,
                    records[k].discovery_method@,
                    clue_info_text(records[k].importance_weight, records[k].discovery_method@),
                ),
            )
        } else {
            rest
        }
    }
}

/// The view of a clue: its description, weight, discovery method and info line.
pub open spec fn clue_view_of(clue: ClueView) -> (Seq<char>, u32, Seq<char>, Seq<char>) {
    (clue.description@, clue.importance_weight, clue.discovery_method@, clue.info_text@)
}

fn replace_underscores(text: &str) -> (replaced: String)
    ensures
        replaced@ == underscores_to_spaces(text@),
{
    let n = text.unicode_len();
    let mut replaced = String::new();
    let mut i: usize = 0;
    while i < n
        invariant
            n == text@.len(),
            i <= n,
            replaced@ == underscores_to_spaces(text@.subrange(0, i as int)),
        decreases n - i,
    {
        let c = text.get_char(i);
        let ghost before = replaced@;
        if c == '_' {
            replaced.append(" ");
            proof {
                reveal_strlit(" ");
            }
        } else {
            replaced.append(text.substring_char(i, i + 1));
        }
        assert(replaced@ =~= underscores_to_spaces(text@.subrange(0, i + 1)));
        i = i + 1;
    }
    assert(text@.subrange(0, n as int) =~= text@);
    replaced
}

fn with_prefix(prefix: &str, rest: &str) -> (text: String)
    ensures
        text@ == prefix@ + rest@,
{
    let mut text = String::from_str(prefix);
    text.append(rest);
    text
}

fn evidence_label(evidence: EvidenceStrength) -> (label: String)
    ensures
        label@ == evidence_text(evidence),
{
    String::from_str(
        match evidence {
            EvidenceStrength::NoEvidence => "Evidence: None",
            EvidenceStrength::Weak => "Evidence: Weak",
            EvidenceStrength::Moderate => "Evidence: Moderate",
            EvidenceStrength::Strong => "Evidence: Strong",
            EvidenceStrength::Overwhelming => "Evidence: Overwhelming",
        },
    )
}

fn find_definition(defs: &Vec<QuestDefinitionView>, id: &str) -> (found: Option<usize>)
    ensures
        match found {
            Some(k) => k < defs@.len() && definition_index(defs@, id@, 0) == k,
            None => definition_index(defs@, id@, 0) == -1,
        },
{
    let mut k: usize = 0;
    while k < defs.len()
        invariant
            k <= defs@.len(),
            definition_index(defs@, id@, 0) == definition_index(defs@, id@, k as int),
        decreases defs@.len() - k,
    {
        if crate::text::str_eq(defs[k].id.as_str(), id) {
            return Some(k);
        }
        k = k + 1;
    }
    None
}

fn find_active(active: &Vec<ActiveQuest>, id: &str) -> (found: Option<usize>)
    ensures
        match found {
            Some(k) => k < active@.len() && active_index(active@, id@, 0) == k,
            None => active_index(active@, id@, 0) == -1,
        },
{
    let mut k: usize = 0;
    while k < active.len()
        invariant
            k <= active@.len(),
            active_index(active@, id@, 0) == active_index(active@, id@, k as int),
        decreases active@.len() - k,
    {
        if crate::text::str_eq(active[k].quest_id.as_str(), id) {
            return Some(k);
        }
        k = k + 1;
    }
    None
}

fn find_phase(phases: &Vec<QuestPhaseView>, id: &str) -> (found: Option<usize>)
    ensures
        match found {
            Some(k) => k < phases@.len() && phase_index(phases@, id@, 0) == k,
            None => phase_index(phases@, id@, 0) == -1,
        },
{
    let mut k: usize = 0;
    while k < phases.len()
        invariant
            k <= phases@.len(),
            phase_index(phases@, id@, 0) == phase_index(phases@, id@, k as int),
        decreases phases@.len() - k,
    {
        if crate::text::str_eq(phases[k].phase_id.as_str(), id) {
            return Some(k);
        }
        k = k + 1;
    }
    None
}

fn find_clue(records: &Vec<ClueRecord>, id: &str) -> (found: Option<usize>)
    ensures
        match found {
            Some(k) => k < records@.len() && clue_index(records@, id@, 0) == k,
            None => clue_index(records@, id@, 0) == -1,
        },
{
    let mut k: usize = 0;
    while k < records.len()
        invariant
            k <= records@.len(),
            clue_index(records@, id@, 0) == clue_index(records@, id@, k as int),
        decreases records@.len() - k,
    {
        if crate::text::str_eq(records[k].clue_id.as_str(), id) {
            return Some(k);
        }
        k = k + 1;
    }
    None
}

fn contains_text(items: &Vec<String>, text: &str) -> (found: bool)
    ensures
        found == has_text(items@, text@),
{
    let mut i: usize = 0;
    while i < items.len()
        invariant
            i <= items@.len(),
            forall|j: int| 0 <= j < i ==> (#[trigger] items@[j])@ != text@,
        decreases items@.len() - i,
    {
        if crate::text::str_eq(items[i].as_str(), text) {
            return true;
        }
        i = i + 1;
    }
    false
}

/// The entries of the active quests list, in the order of `active` (the
/// journal's order): each with its quest id, its title (that of its
/// definition, else the id), its phase as "Phase: " and the phase with
/// underscores turned into spaces, its evidence strength and label, and
/// whether it is the selected quest.
pub fn active_quest_entries(
    active: &Vec<ActiveQuest>,
    defs: &Vec<QuestDefinitionView>,
    selected: &Option<String>,
) -> (entries: Vec<QuestEntryView>)
    ensures
        entries@.len() == active@.len(),
        forall|i: int|
            0 <= i < active@.len() ==> {
                &&& (#[trigger] entries@[i]).quest_id@ == active@[i].quest_id@
                &&& entries@[i].title@ == title_or_id(defs@, active@[i].quest_id@)
                &&& entries@[i].phase_text@ == "Phase: "@ + underscores_to_spaces(
                    active@[i].current_phase@,
                )
                &&& entries@[i].evidence == active@[i].evidence_strength
                &&& entries@[i].evidence_text@ == evidence_text(active@[i].evidence_strength)
                &&& entries@[i].selected == (selected matches Some(s) && s@
                    == active@[i].quest_id@)
            },
{
    let mut entries: Vec<QuestEntryView> = Vec::new();
    let n = active.len();
    let mut i: usize = 0;
    while i < n
        invariant
            n == active@.len(),
            i <= n,
            entries@.len() == i,
            forall|k: int|
                0 <= k < i ==> {
                    &&& (#[trigger] entries@[k]).quest_id@ == active@[k].quest_id@
                    &&& entries@[k].title@ == title_or_id(defs@, active@[k].quest_id@)
                    &&& entries@[k].phase_text@ == "Phase: "@ + underscores_to_spaces(
                        active@[k].current_phase@,
                    )
                    &&& entries@[k].evidence == active@[k].evidence_strength
                    &&& entries@[k].evidence_text@ == evidence_text(active@[k].evidence_strength)
                    &&& entries@[k].selected == (selected matches Some(s) && s@
                        == active@[k].quest_id@)
                },
        decreases n - i,
    {
        let quest = &active[i];
        let title = match find_definition(defs, quest.quest_id.as_str()) {
            Some(k) => defs[k].title.clone(),
            None => quest.quest_id.clone(),
        };
        let phase = replace_underscores(quest.current_phase.as_str());
        let phase_text = with_prefix("Phase: ", phase.as_str());
        let is_selected = match selected {
            Some(s) => *s == quest.quest_id,
            None => false,
        };
        let entry = QuestEntryView {
            quest_id: quest.quest_id.clone(),
            title,
            phase_text,
            evidence: quest.evidence_strength,
            evidence_text: evidence_label(quest.evidence_strength),
            selected: is_selected,
        };
        entries.push(entry);
        i = i + 1;
    }
    entries
}

/// The current phase of a quest: its description and its objectives, each
/// marked completed exactly when its description is among the completed
/// objectives.
fn phase_details(phase: &QuestPhaseView, completed_objectives: &Vec<String>) -> (details: PhaseDetailsView)
    ensures
        details.description@ == phase.description@,
        details.objectives@.len() == phase.objectives@.len(),
        forall|i: int|
            0 <= i < phase.objectives@.len() ==> {
                &&& (#[trigger] details.objectives@[i]).completed == has_text(completed_objectives@, phase.objectives@[i]@)
                &&& details.objectives@[i].text@ == objective_text(
                    phase.objectives@[i]@,
                    details.objectives@[i].completed,
                )
            },
{
    let mut objectives: Vec<ObjectiveView> = Vec::new();
    let n = phase.objectives.len();
    let mut i: usize = 0;
    while i < n
        invariant
            n == phase.objectives@.len(),
            i <= n,
            objectives@.len() == i,
            forall|k: int|
                0 <= k < i ==> {
                    &&& (#[trigger] objectives@[k]).completed == has_text(completed_objectives@, phase.objectives@[k]@)
                    &&& objectives@[k].text@ == objective_text(
                        phase.objectives@[k]@,
                        objectives@[k].completed,
                    )
                },
        decreases n - i,
    {
        let description = &phase.objectives[i];
        let completed = contains_text(completed_objectives, description.as_str());
        let body = replace_underscores(description.as_str());
        let text = if completed {
            with_prefix("✓ ", body.as_str())
        } else {
            with_prefix("• ", body.as_str())
        };
        objectives.push(ObjectiveView { text, completed });
        i = i + 1;
    }
    PhaseDetailsView { description: phase.description.clone(), objectives }
}

/// The discovered clues that have a record, in the order found.
fn clue_details(ids: &Vec<String>, records: &Vec<ClueRecord>) -> (clues: Vec<ClueView>)
    ensures
        clues@.map_values(|c: ClueView| clue_view_of(c)) == clue_views_of(records@, ids@),
{
    let mut clues: Vec<ClueView> = Vec::new();
    let n = ids.len();
    let mut i: usize = 0;
    while i < n
        invariant
            n == ids@.len(),
            i <= n,
            clues@.map_values(|c: ClueView| clue_view_of(c)) == clue_views_of(
                records@,
                ids@.take(i as int),
            ),
        decreases n - i,
    {
        let ghost before = clues@;
        proof {
            let prefix = ids@.take(i + 1);
            assert(prefix.drop_last() =~= ids@.take(i as int));
            assert(prefix.last() == ids@[i as int]);
        }
        match find_clue(records, ids[i].as_str()) {
            Some(k) => {
                let record = &records[k];
                let mut info_text = String::from_str("Importance: ");
                info_text.append(decimal_text(record.importance_weight).as_str());
                info_text.append(" | Found: ");
                info_text.append(record.discovery_method.as_str());
                clues.push(
                    ClueView {
                        description: record.description.clone(),
                        importance_weight: record.importance_weight,
                        discovery_method: record.discovery_method.clone(),
                        info_text,
                    },
                );
                assert(clues@.map_values(|c: ClueView| clue_view_of(c)) =~= before.map_values(
                    |c: ClueView| clue_view_of(c),
                ).push(clue_view_of(clues@.last())));
            },
            None => {},
        }
        i = i + 1;
    }
    assert(ids@.take(n as int) =~= ids@);
    clues
}

/// The details panel: nothing selected asks for a selection; a selected
/// quest that is not active (the first active entry with its id) or has no
/// definition shows nothing; otherwise its title and description, its
/// current phase (the first phase of the definition whose id is the
/// quest's current phase, if any), its discovered clues that have a record,
/// and its investigation notes, each as a bullet.
pub fn quest_details(
    selected: &Option<String>,
    active: &Vec<ActiveQuest>,
    defs: &Vec<QuestDefinitionView>,
    records: &Vec<ClueRecord>,
) -> (details: QuestDetails)
    ensures
        details is NoSelection <==> selected is None,
        selected matches Some(id) ==> (details is Unavailable <==> (active_index(active@, id@, 0) < 0
            || definition_index(defs@, id@, 0) < 0)),
        details matches QuestDetails::Shown(view) ==> selected is Some && {
            let id = selected->0@;
            let quest = active@[active_index(active@, id, 0)];
            let def = defs@[definition_index(defs@, id, 0)];
            let p = phase_index(def.phases@, quest.current_phase@, 0);
            &&& active_index(active@, id, 0) >= 0
            &&& definition_index(defs@, id, 0) >= 0
            &&& view.title@ == def.title@
            &&& view.description@ == def.description@
            &&& (view.phase is Some <==> p >= 0)
            &&& (view.phase matches Some(phase) ==> {
                &&& phase.description@ == def.phases@[p].description@
                &&& phase.objectives@.len() == def.phases@[p].objectives@.len()
                &&& forall|i: int|
                    0 <= i < phase.objectives@.len() ==> {
                        &&& (#[trigger] phase.objectives@[i]).completed
                            == has_text(quest.completed_objectives@, 
                            def.phases@[p].objectives@[i]@,
                        )
                        &&& phase.objectives@[i].text@ == objective_text(
                            def.phases@[p].objectives@[i]@,
                            phase.objectives@[i].completed,
                        )
                    }
            })
            &&& view.clues@.map_values(|c: ClueView| clue_view_of(c)) == clue_views_of(
                records@,
                quest.discovered_clues@,
            )
            &&& view.notes@.len() == quest.investigation_notes@.len()
            &&& forall|i: int|
                0 <= i < view.notes@.len() ==> (#[trigger] view.notes@[i])@ == "• "@
                    + quest.investigation_notes@[i]@
        },
{
    let id = match selected {
        Some(id) => id,
        None => return QuestDetails::NoSelection,
    };
    let a = match find_active(active, id.as_str()) {
        Some(a) => a,
        None => return QuestDetails::Unavailable,
    };
    let d = match find_definition(defs, id.as_str()) {
        Some(d) => d,
        None => return QuestDetails::Unavailable,
    };
    let quest = &active[a];
    let def = &defs[d];
    let phase = match find_phase(&def.phases, quest.current_phase.as_str()) {
        Some(p) => Some(phase_details(&def.phases[p], &quest.completed_objectives)),
        None => None,
    };
    let clues = clue_details(&quest.discovered_clues, records);
    let mut notes: Vec<String> = Vec::new();
    let n = quest.investigation_notes.len();
    let mut i: usize = 0;
    while i < n
        invariant
            n == quest.investigation_notes@.len(),
            i <= n,
            notes@.len() == i,
            forall|k: int|
                0 <= k < i ==> (#[trigger] notes@[k])@ == "• "@ + quest.investigation_notes@[k]@,
        decreases n - i,
    {
        notes.push(with_prefix("• ", quest.investigation_notes[i].as_str()));
        i = i + 1;
    }
    QuestDetails::Shown(
        QuestDetailsView {
            title: def.title.clone(),
            description: def.description.clone(),
            phase,
            clues,
            notes,
        },
    )
}

/// The entries of the completed quests list: each quest id with
/// "Resolution: " and its resolution path.
pub fn completed_quest_entries(completed: &Vec<CompletedQuest>) -> (entries: Vec<(String, String)>)
    ensures
        entries@.len() == completed@.len(),
        forall|i: int|
            0 <= i < completed@.len() ==> (#[trigger] entries@[i]).0@ == completed@[i].quest_id@
                && entries@[i].1@ == "Resolution: "@ + completed@[i].resolution_path@,
{
    let mut entries: Vec<(String, String)> = Vec::new();
    let n = completed.len();
    let mut i: usize = 0;
    while i < n
        invariant
            n == completed@.len(),
            i <= n,
            entries@.len() == i,
            forall|k: int|
                0 <= k < i ==> (#[trigger] entries@[k]).0@ == completed@[k].quest_id@
                    && entries@[k].1@ == "Resolution: "@ + completed@[k].resolution_path@,
        decreases n - i,
    {
        let quest = &completed[i];
        entries.push(
            (quest.quest_id.clone(), with_prefix("Resolution: ", quest.resolution_path.as_str())),
        );
        i = i + 1;
    }
    entries
}

/// The entries of the list of all discovered clues, in the order of
/// `records` (the journal's order): each clue's description, and under it
/// its quest, importance and discovery method.
pub fn clue_list_entries(records: &Vec<ClueRecord>) -> (entries: Vec<(String, String)>)
    ensures
        entries@.len() == records@.len(),
        forall|i: int|
            0 <= i < records@.len() ==> (#[trigger] entries@[i]).0@ == records@[i].description@
                && entries@[i].1@ == clue_list_info_text(records@[i]),
{
    let mut entries: Vec<(String, String)> = Vec::new();
    let n = records.len();
    let mut i: usize = 0;
    while i < n
        invariant
            n == records@.len(),
            i <= n,
            entries@.len() == i,
            forall|k: int|
                0 <= k < i ==> (#[trigger] entries@[k]).0@ == records@[k].description@
                    && entries@[k].1@ == clue_list_info_text(records@[k]),
        decreases n - i,
    {
        let record = &records[i];
        let mut info = String::from_str("Quest: ");
        info.append(record.quest_id.as_str());
        info.append(" | Importance: ");
        info.append(decimal_text(record.importance_weight).as_str());
        info.append(" | Method: ");
        info.append(record.discovery_method.as_str());
        entries.push((record.description.clone(), info));
        i = i + 1;
    }
    entries
}

/// How the quest status lists an action of the current phase: the three
/// investigation actions with their keys, any other action as a bullet with
/// its underscores turned into spaces.
pub open spec fn action_hint_text(name: Seq<char>) -> Seq<char> {
    if name == action_name(InvestigationAction::ExamineShop) {
        "F10 - Examine shop carefully"@
    } else if name == action_name(InvestigationAction::QuestionAldric) {
        "F11 - Question Aldric about travels"@
    } else if name == action_name(InvestigationAction::CheckGuildRecords) {
        "F12 - Check merchant guild records"@
    } else {
        "• "@ + underscores_to_spaces(name)
    }
}

/// The line of the quest status for an available action.
pub fn action_hint(name: &str) -> (hint: String)
    ensures
        hint@ == action_hint_text(name@),
{
    match InvestigationAction::from_action_name(name) {
        Some(InvestigationAction::ExamineShop) => String::from_str("F10 - Examine shop carefully"),
        Some(InvestigationAction::QuestionAldric) => String::from_str(
            "F11 - Question Aldric about travels",
        ),
        Some(InvestigationAction::CheckGuildRecords) => String::from_str(
            "F12 - Check merchant guild records",
        ),
        None => with_prefix("• ", replace_underscores(name).as_str()),
    }
}

/// The header of a tab's list, and the message shown when the list is empty.
pub fn tab_list_texts(tab: JournalTabType) -> (texts: (&'static str, &'static str))
    ensures
        texts.0@ == match tab {
            JournalTabType::ActiveQuests => "Active Quests"@,
            JournalTabType::CompletedQuests => "Completed Quests"@,
            JournalTabType::Clues => "All Discovered Clues"@,
            JournalTabType::Notes => "Player Notes"@,
        },
        texts.1@ == match tab {
            JournalTabType::ActiveQuests => "No active quests"@,
            JournalTabType::CompletedQuests => "No completed quests yet"@,
            JournalTabType::Clues => "No clues discovered yet"@,
            JournalTabType::Notes => "No notes written yet"@,
        },
{
    match tab {
        JournalTabType::ActiveQuests => ("Active Quests", "No active quests"),
        JournalTabType::CompletedQuests => ("Completed Quests", "No completed quests yet"),
        JournalTabType::Clues => ("All Discovered Clues", "No clues discovered yet"),
        JournalTabType::Notes => ("Player Notes", "No notes written yet"),
    }
}

} // verus!
