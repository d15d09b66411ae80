//! The merchant's mystery: starting the investigation quest, the three
//! investigation actions of its first phase, and the move to its second
//! phase once enough evidence is found.
use vstd::prelude::*;
use vstd::string::*;
use crate::journal_view::ClueRecord;

verus! {

/// The identifier of the investigation quest.
pub open spec fn mystery_quest_id() -> Seq<char> {
    "the_merchants_mystery"@
}

/// The first phase of the investigation.
pub open spec fn initial_phase() -> Seq<char> {
    "initial_observation"@
}

/// The phase that follows the first one.
pub open spec fn witness_phase() -> Seq<char> {
    "witness_interviews"@
}

/// What a player does to investigate during the first phase.
#[derive(Debug, Clone, Copy, PartialEq, Eq, Structural)]
pub enum InvestigationAction {
    /// Examine Aldric's shop carefully.
    ExamineShop,
    /// Question Aldric about his travels.
    QuestionAldric,
    /// Check the merchant guild's records.
    CheckGuildRecords,
}

/// The clue that an investigation action uncovers.
pub open spec fn action_clue(action: InvestigationAction) -> Seq<char> {
    match action {
        InvestigationAction::ExamineShop => "mysterious_amulet"@,
        InvestigationAction::QuestionAldric => "travel_time_inconsistency"@,
        InvestigationAction::CheckGuildRecords => "altered_ledger"@,
    }
}

/// The name under which a quest phase lists an investigation action.
pub open spec fn action_name(action: InvestigationAction) -> Seq<char> {
    match action {
        InvestigationAction::ExamineShop => "examine_shop_carefully"@,
        InvestigationAction::QuestionAldric => "question_aldric_about_travels"@,
        InvestigationAction::CheckGuildRecords => "check_merchant_guild_records"@,
    }
}

impl InvestigationAction {
    /// The investigation action that a phase's action name stands for, if any
    /// (other action names have no key of their own in the quest journal).
    pub fn from_action_name(name: &str) -> (action: Option<InvestigationAction>)
        ensures
            action == if name@ == action_name(InvestigationAction::ExamineShop) {
                Some(InvestigationAction::ExamineShop)
            } else if name@ == action_name(InvestigationAction::QuestionAldric) {
                Some(InvestigationAction::QuestionAldric)
            } else if name@ == action_name(InvestigationAction::CheckGuildRecords) {
                Some(InvestigationAction::CheckGuildRecords)
            } else {
                None
            },
    {
        if crate::text::str_eq(name, "examine_shop_carefully") {
            Some(InvestigationAction::ExamineShop)
        } else if crate::text::str_eq(name, "question_aldric_about_travels") {
            Some(InvestigationAction::QuestionAldric)
        } else if crate::text::str_eq(name, "check_merchant_guild_records") {
            Some(InvestigationAction::CheckGuildRecords)
        } else {
            None
        }
    }
}

/// How an investigation action turned out.
#[derive(Debug, Clone, Copy, PartialEq, Eq, Structural)]
pub enum InvestigationOutcome {
    /// The first phase is over; nothing happens.
    PhaseAlreadyPassed,
    /// The action's clue was found for the first time.
    ClueDiscovered,
    /// The action's clue had been found before.
    ClueAlreadyKnown,
}

/// How a request to start the investigation quest is answered.
#[derive(Debug, Clone, Copy, PartialEq, Eq, Structural)]
pub enum QuestStartOutcome {
    /// The quest begins in its first phase.
    Started,
    /// The quest is active or completed already.
    AlreadyStartedOrCompleted,
    /// No definition of the quest is loaded.
    DefinitionMissing,
}

/// A player's progress through the investigation quest.
pub struct InvestigationProgress {
    pub current_phase: String,
    pub completed_phases: Vec<String>,
    pub discovered_clues: Vec<String>,
    pub evidence_strength: EvidenceStrength,
}

/// How strongly the clues found so far support the investigation's theory.
#[derive(Debug, Clone, Copy, PartialEq, Eq, Structural)]
pub enum EvidenceStrength {
    NoEvidence,
    Weak,
    Moderate,
    Strong,
    Overwhelming,
}

/// The identifiers of a list of clues.
pub open spec fn clue_ids(clues: Seq<String>) -> Seq<Seq<char>> {
    clues.map_values(|c: String| c@)
}

/// No clue occurs twice among `clues`.
pub open spec fn clues_distinct(clues: Seq<Seq<char>>) -> bool {
    forall|i: int, j: int| 0 <= i < j < clues.len() ==> clues[i] != clues[j]
}

/// The clues found after an action, given those found before it and whether
/// the investigation is in its first phase: the action's clue is added unless
/// it was found already or the first phase is over.
pub open spec fn clues_after(
    before: Seq<Seq<char>>,
    in_first_phase: bool,
    action: InvestigationAction,
) -> Seq<Seq<char>> {
    if in_first_phase && !before.contains(action_clue(action)) {
        before.push(action_clue(action))
    } else {
        before
    }
}

/// The answer to a request to start the quest: it starts only when it is
/// neither active nor completed and its definition is loaded.
pub fn quest_start_outcome(is_active: bool, is_completed: bool, is_defined: bool) -> (outcome:
    QuestStartOutcome)
    ensures
        outcome == if is_active || is_completed {
            QuestStartOutcome::AlreadyStartedOrCompleted
        } else if is_defined {
            QuestStartOutcome::Started
        } else {
            QuestStartOutcome::DefinitionMissing
        },
{
    if !is_active && !is_completed {
        if is_defined {
            QuestStartOutcome::Started
        } else {
            QuestStartOutcome::DefinitionMissing
        }
    } else {
        QuestStartOutcome::AlreadyStartedOrCompleted
    }
}

fn contains_clue(clues: &Vec<String>, id: &str) -> (found: bool)
    ensures
        found == clue_ids(clues@).contains(id@),
{
    let mut i: usize = 0;
    while i < clues.len()
        invariant
            i <= clues@.len(),
            forall|j: int| 0 <= j < i ==> #[trigger] clues@[j]@ != id@,
        decreases clues@.len() - i,
    {
        if crate::text::str_eq(clues[i].as_str(), id) {
            assert(clue_ids(clues@)[i as int] == id@);
            return true;
        }
        i = i + 1;
    }
    assert(forall|j: int| 0 <= j < clue_ids(clues@).len() ==> clue_ids(clues@)[j] != id@);
    false
}

impl InvestigationProgress {
    /// The progress of a freshly started quest: in its first phase, with no
    /// phase completed and no clue found.
    pub fn start() -> (progress: Self)
        ensures
            progress.current_phase@ == initial_phase(),
            progress.completed_phases@.len() == 0,
            progress.discovered_clues@.len() == 0,
            progress.evidence_strength == EvidenceStrength::NoEvidence,
    {
        InvestigationProgress {
            current_phase: String::from_str("initial_observation"),
            completed_phases: Vec::new(),
            discovered_clues: Vec::new(),
            evidence_strength: EvidenceStrength::NoEvidence,
        }
    }

    /// Carries out an investigation action. During the first phase it records
    /// the action's clue unless it was found before; after the first phase it
    /// does nothing.
    pub fn investigate(&mut self, action: InvestigationAction) -> (outcome: InvestigationOutcome)
        ensures
            final(self).current_phase == old(self).current_phase,
            final(self).completed_phases == old(self).completed_phases,
            final(self).evidence_strength == old(self).evidence_strength,
            clue_ids(final(self).discovered_clues@) == clues_after(
                clue_ids(old(self).discovered_clues@),
                old(self).current_phase@ == initial_phase(),
                action,
            ),
            outcome == if old(self).current_phase@ != initial_phase() {
                InvestigationOutcome::PhaseAlreadyPassed
            } else if clue_ids(old(self).discovered_clues@).contains(action_clue(action)) {
                InvestigationOutcome::ClueAlreadyKnown
            } else {
                InvestigationOutcome::ClueDiscovered
            },
    {
        if !str_eq_string(&self.current_phase, "initial_observation") {
            return InvestigationOutcome::PhaseAlreadyPassed;
        }
        let clue: &str = match action {
            InvestigationAction::ExamineShop => "mysterious_amulet",
            InvestigationAction::QuestionAldric => "travel_time_inconsistency",
            InvestigationAction::CheckGuildRecords => "altered_ledger",
        };
        if contains_clue(&self.discovered_clues, clue) {
            InvestigationOutcome::ClueAlreadyKnown
        } else {
            let ghost before = self.discovered_clues@;
            self.discovered_clues.push(String::from_str(clue));
            assert(clue_ids(self.discovered_clues@) =~= clue_ids(before).push(action_clue(action)));
            InvestigationOutcome::ClueDiscovered
        }
    }

    /// Concludes an investigation action of the first phase: records
    /// `evidence`, the strength of the clues found so far, and, after the
    /// check of the guild records, moves on to the witness interviews when
    /// there is some evidence and at least two clues, recording the first
    /// phase as completed. After the first phase nothing changes. Answers
    /// whether the phase was completed.
    pub fn conclude_action(&mut self, action: InvestigationAction, evidence: EvidenceStrength) -> (completed: bool)
        ensures
            completed == (old(self).current_phase@ == initial_phase() && action
                == InvestigationAction::CheckGuildRecords && evidence != EvidenceStrength::NoEvidence
                && old(self).discovered_clues@.len() >= 2),
            old(self).current_phase@ == initial_phase() ==> final(self).evidence_strength == evidence,
            old(self).current_phase@ != initial_phase() ==> final(self).evidence_strength == old(
                self,
            ).evidence_strength,
            completed ==> final(self).current_phase@ == witness_phase(),
            completed ==> final(self).completed_phases@ == old(self).completed_phases@.push(
                old(self).current_phase,
            ),
            !completed ==> final(self).current_phase == old(self).current_phase,
            !completed ==> final(self).completed_phases == old(self).completed_phases,
            final(self).discovered_clues == old(self).discovered_clues,
    {
        if !str_eq_string(&self.current_phase, "initial_observation") {
            return false;
        }
        self.evidence_strength = evidence;
        let is_guild_check = match action {
            InvestigationAction::CheckGuildRecords => true,
            _ => false,
        };
        if is_guild_check && evidence != EvidenceStrength::NoEvidence && self.discovered_clues.len() >= 2 {
            let finished = self.current_phase.clone();
            self.completed_phases.push(finished);
            self.current_phase = String::from_str("witness_interviews");
            true
        } else {
            false
        }
    }
}

fn str_eq_string(s: &String, lit: &str) -> (same: bool)
    ensures
        same == (s@ == lit@),
{
    crate::text::str_eq(s.as_str(), lit)
}

/// Investigation actions never record a clue twice: if the clues found so
/// far are distinct, they stay distinct after any action.
pub proof fn lemma_investigation_keeps_clues_distinct(
    before: Seq<Seq<char>>,
    in_first_phase: bool,
    action: InvestigationAction,
)
    requires
        clues_distinct(before),
    ensures
        clues_distinct(clues_after(before, in_first_phase, action)),
{
    let after = clues_after(before, in_first_phase, action);
    if after != before {
        assert forall|i: int, j: int| 0 <= i < j < after.len() implies after[i] != after[j] by {
            if j == after.len() - 1 && after[i] == after[j] {
                assert(before[i] == action_clue(action));
            }
        }
    }
}

/// Investigation actions only add clues: those found before stay, in order,
/// at the front of the list.
pub proof fn lemma_investigation_keeps_found_clues(
    before: Seq<Seq<char>>,
    in_first_phase: bool,
    action: InvestigationAction,
)
    ensures
        clues_after(before, in_first_phase, action).len() >= before.len(),
        clues_after(before, in_first_phase, action).take(before.len() as int) == before,
{
    assert(clues_after(before, in_first_phase, action).take(before.len() as int) =~= before);
}

/// In the first phase, carrying out all three actions (in any order) finds
/// all three clues.
pub proof fn lemma_all_actions_find_all_clues(
    a1: InvestigationAction,
    a2: InvestigationAction,
    a3: InvestigationAction,
)
    requires
        a1 != a2,
        a2 != a3,
        a1 != a3,
    ensures
        ({
            let found = clues_after(clues_after(clues_after(Seq::empty(), true, a1), true, a2), true, a3);
            &&& found.len() == 3
            &&& found.contains(action_clue(InvestigationAction::ExamineShop))
            &&& found.contains(action_clue(InvestigationAction::QuestionAldric))
            &&& found.contains(action_clue(InvestigationAction::CheckGuildRecords))
        }),
{
    reveal_strlit("mysterious_amulet");
    reveal_strlit("travel_time_inconsistency");
    reveal_strlit("altered_ledger");
    let s1 = clues_after(Seq::empty(), true, a1);
    let s2 = clues_after(s1, true, a2);
    let s3 = clues_after(s2, true, a3);
    assert("mysterious_amulet"@.len() != "travel_time_inconsistency"@.len());
    assert("mysterious_amulet"@[0] != "altered_ledger"@[0]);
    assert("travel_time_inconsistency"@.len() != "altered_ledger"@.len());
    assert(s1 =~= seq![action_clue(a1)]);
    assert(!s1.contains(action_clue(a2)));
    assert(s2 =~= seq![action_clue(a1), action_clue(a2)]);
    assert(!s2.contains(action_clue(a3)));
    assert(s3 =~= seq![action_clue(a1), action_clue(a2), action_clue(a3)]);
    assert(s3[0] == action_clue(a1));
    assert(s3[1] == action_clue(a2));
    assert(s3[2] == action_clue(a3));
}

/// What the clue of an investigation action looks like.
pub open spec fn clue_description(action: InvestigationAction) -> Seq<char> {
    match action {
        InvestigationAction::ExamineShop => "A bone amulet with strange markings hidden beneath the counter, still warm to the touch"@,
        InvestigationAction::QuestionAldric => "Aldric claims to have made the northern journey in 8 days, but the goods he carries suggest a 3-week expedition"@,
        InvestigationAction::CheckGuildRecords => "Recent entries in the merchant's ledger show signs of erasure and rewriting"@,
    }
}

/// How the clue of an investigation action is found.
pub open spec fn clue_discovery_method(action: InvestigationAction) -> Seq<char> {
    match action {
        InvestigationAction::ExamineShop => "Thorough examination of shop premises"@,
        InvestigationAction::QuestionAldric => "Careful questioning about travel logistics"@,
        InvestigationAction::CheckGuildRecords => "Academic analysis of documentation"@,
    }
}

/// How much the clue of an investigation action weighs as evidence.
pub open spec fn clue_weight(action: InvestigationAction) -> u32 {
    match action {
        InvestigationAction::ExamineShop => 3,
        InvestigationAction::QuestionAldric => 4,
        InvestigationAction::CheckGuildRecords => 2,
    }
}

/// The clues that the clue of an investigation action points to.
pub open spec fn clue_related(action: InvestigationAction) -> Seq<Seq<char>> {
    match action {
        InvestigationAction::ExamineShop => seq!["altered_ledger"@],
        InvestigationAction::QuestionAldric => seq!["altered_ledger"@],
        InvestigationAction::CheckGuildRecords => seq![
            "travel_time_inconsistency"@,
            "mysterious_amulet"@,
        ],
    }
}

impl InvestigationAction {
    /// The record of the clue this action uncovers, as the quest log keeps it.
    pub fn clue_record(self) -> (record: ClueRecord)
        ensures
            record.clue_id@ == action_clue(self),
            record.quest_id@ == mystery_quest_id(),
            record.description@ == clue_description(self),
            record.discovery_method@ == clue_discovery_method(self),
            record.importance_weight == clue_weight(self),
            record.related_clues@.len() == clue_related(self).len(),
            forall|i: int|
                0 <= i < record.related_clues@.len() ==> (#[trigger] record.related_clues@[i])@
                    == clue_related(self)[i],
    {
        match self {
            InvestigationAction::ExamineShop => ClueRecord {
                clue_id: String::from_str("mysterious_amulet"),
                quest_id: String::from_str("the_merchants_mystery"),
                description: String::from_str(
                    "A bone amulet with strange markings hidden beneath the counter, still warm to the touch",
                ),
                discovery_method: String::from_str("Thorough examination of shop premises"),
                importance_weight: 3,
                related_clues: vec![String::from_str("altered_ledger")],
            },
            InvestigationAction::QuestionAldric => ClueRecord {
                clue_id: String::from_str("travel_time_inconsistency"),
                quest_id: String::from_str("the_merchants_mystery"),
                description: String::from_str(
                    "Aldric claims to have made the northern journey in 8 days, but the goods he carries suggest a 3-week expedition",
                ),
                discovery_method: String::from_str("Careful questioning about travel logistics"),
                importance_weight: 4,
                related_clues: vec![String::from_str("altered_ledger")],
            },
            InvestigationAction::CheckGuildRecords => ClueRecord {
                clue_id: String::from_str("altered_ledger"),
                quest_id: String::from_str("the_merchants_mystery"),
                description: String::from_str(
                    "Recent entries in the merchant's ledger show signs of erasure and rewriting",
                ),
                discovery_method: String::from_str("Academic analysis of documentation"),
                importance_weight: 2,
                related_clues: vec![
                    String::from_str("travel_time_inconsistency"),
                    String::from_str("mysterious_amulet"),
                ],
            },
        }
    }
}

} // verus!
