use eryndor::investigation::{
    quest_start_outcome, EvidenceStrength, InvestigationAction, InvestigationOutcome,
    InvestigationProgress, QuestStartOutcome,
};

#[test]
fn quest_starts_once() {
    assert_eq!(quest_start_outcome(false, false, true), QuestStartOutcome::Started);
    assert_eq!(quest_start_outcome(true, false, true), QuestStartOutcome::AlreadyStartedOrCompleted);
    assert_eq!(quest_start_outcome(false, true, true), QuestStartOutcome::AlreadyStartedOrCompleted);
    assert_eq!(quest_start_outcome(false, false, false), QuestStartOutcome::DefinitionMissing);
    let progress = InvestigationProgress::start();
    assert_eq!(progress.current_phase, "initial_observation");
    assert!(progress.completed_phases.is_empty());
    assert!(progress.discovered_clues.is_empty());
}

#[test]
fn clues_are_found_once() {
    let mut progress = InvestigationProgress::start();
    assert_eq!(progress.investigate(InvestigationAction::ExamineShop), InvestigationOutcome::ClueDiscovered);
    assert_eq!(progress.investigate(InvestigationAction::ExamineShop), InvestigationOutcome::ClueAlreadyKnown);
    assert_eq!(progress.investigate(InvestigationAction::QuestionAldric), InvestigationOutcome::ClueDiscovered);
    assert_eq!(progress.discovered_clues, vec!["mysterious_amulet", "travel_time_inconsistency"]);
}

#[test]
fn first_phase_completes_with_evidence_and_two_clues() {
    let mut progress = InvestigationProgress::start();
    assert_eq!(progress.evidence_strength, EvidenceStrength::NoEvidence);
    progress.investigate(InvestigationAction::CheckGuildRecords);
    assert!(!progress.conclude_action(InvestigationAction::CheckGuildRecords, EvidenceStrength::Weak));
    assert_eq!(progress.evidence_strength, EvidenceStrength::Weak);
    progress.investigate(InvestigationAction::QuestionAldric);
    // only the guild records check completes the phase
    assert!(!progress.conclude_action(InvestigationAction::QuestionAldric, EvidenceStrength::Moderate));
    assert!(!progress.conclude_action(InvestigationAction::CheckGuildRecords, EvidenceStrength::NoEvidence));
    assert!(progress.conclude_action(InvestigationAction::CheckGuildRecords, EvidenceStrength::Moderate));
    assert_eq!(progress.current_phase, "witness_interviews");
    assert_eq!(progress.completed_phases, vec!["initial_observation"]);
    assert_eq!(progress.evidence_strength, EvidenceStrength::Moderate);
    // the first phase is over: actions do nothing, and it cannot complete again
    assert_eq!(progress.investigate(InvestigationAction::ExamineShop), InvestigationOutcome::PhaseAlreadyPassed);
    assert_eq!(progress.discovered_clues.len(), 2);
    assert!(!progress.conclude_action(InvestigationAction::CheckGuildRecords, EvidenceStrength::Strong));
    assert_eq!(progress.evidence_strength, EvidenceStrength::Moderate);
}

#[test]
fn action_names_name_actions() {
    assert_eq!(
        InvestigationAction::from_action_name("examine_shop_carefully"),
        Some(InvestigationAction::ExamineShop)
    );
    assert_eq!(
        InvestigationAction::from_action_name("question_aldric_about_travels"),
        Some(InvestigationAction::QuestionAldric)
    );
    assert_eq!(
        InvestigationAction::from_action_name("check_merchant_guild_records"),
        Some(InvestigationAction::CheckGuildRecords)
    );
    assert_eq!(InvestigationAction::from_action_name("talk_to_marta"), None);
}

#[test]
fn clue_records_of_the_actions() {
    let amulet = InvestigationAction::ExamineShop.clue_record();
    assert_eq!(amulet.clue_id, "mysterious_amulet");
    assert_eq!(amulet.quest_id, "the_merchants_mystery");
    assert_eq!(amulet.importance_weight, 3);
    assert_eq!(amulet.discovery_method, "Thorough examination of shop premises");
    assert_eq!(amulet.related_clues, vec!["altered_ledger".to_string()]);

    let travel = InvestigationAction::QuestionAldric.clue_record();
    assert_eq!(travel.clue_id, "travel_time_inconsistency");
    assert_eq!(travel.importance_weight, 4);

    let ledger = InvestigationAction::CheckGuildRecords.clue_record();
    assert_eq!(ledger.clue_id, "altered_ledger");
    assert_eq!(ledger.importance_weight, 2);
    assert_eq!(
        ledger.related_clues,
        vec!["travel_time_inconsistency".to_string(), "mysterious_amulet".to_string()]
    );
    assert_eq!(
        ledger.description,
        "Recent entries in the merchant's ledger show signs of erasure and rewriting"
    );
}
