use eryndor::investigation::EvidenceStrength;
use eryndor::journal::JournalTabType;
use eryndor::journal_view::{
    action_hint, active_quest_entries, clue_list_entries, completed_quest_entries, quest_details, tab_list_texts,
    ActiveQuest, ClueRecord, CompletedQuest, QuestDefinitionView, QuestDetails, QuestPhaseView,
};
use eryndor::text::decimal_text;

fn s(x: &str) -> String {
    x.to_string()
}

fn mystery() -> QuestDefinitionView {
    QuestDefinitionView {
        id: s("merchant_mystery"),
        title: s("The Merchant's Mystery"),
        description: s("Find out what happened to the caravan."),
        phases: vec![
            QuestPhaseView {
                phase_id: s("initial_investigation"),
                description: s("Look around the market."),
                objectives: vec![s("talk_to_guard"), s("check_guild_records")],
            },
            QuestPhaseView { phase_id: s("deeper"), description: s("Dig deeper."), objectives: vec![] },
        ],
    }
}

fn progress(id: &str) -> ActiveQuest {
    ActiveQuest {
        quest_id: s(id),
        current_phase: s("initial_investigation"),
        evidence_strength: EvidenceStrength::Weak,
        discovered_clues: vec![s("torn_cloth"), s("unrecorded"), s("cart_tracks")],
        completed_objectives: vec![s("talk_to_guard")],
        investigation_notes: vec![s("The guard seemed nervous")],
    }
}

fn records() -> Vec<ClueRecord> {
    vec![
        ClueRecord {
            clue_id: s("cart_tracks"),
            quest_id: s("merchant_mystery"),
            description: s("Deep cart tracks"),
            discovery_method: s("Examination"),
            importance_weight: 12,
            related_clues: vec![],
        },
        ClueRecord {
            clue_id: s("torn_cloth"),
            quest_id: s("merchant_mystery"),
            description: s("A torn piece of cloth"),
            discovery_method: s("Search"),
            importance_weight: 3,
            related_clues: vec![s("cart_tracks")],
        },
    ]
}

#[test]
fn decimal_text_of_numbers() {
    assert_eq!(decimal_text(0), "0");
    assert_eq!(decimal_text(7), "7");
    assert_eq!(decimal_text(12), "12");
    assert_eq!(decimal_text(4294967295), "4294967295");
}

#[test]
fn active_entries_show_title_phase_and_evidence() {
    let active = vec![progress("merchant_mystery"), progress("lost_cat")];
    let entries = active_quest_entries(&active, &vec![mystery()], &Some(s("lost_cat")));
    assert_eq!(entries.len(), 2);
    assert_eq!(entries[0].title, "The Merchant's Mystery");
    assert_eq!(entries[1].title, "lost_cat");
    assert_eq!(entries[0].phase_text, "Phase: initial investigation");
    assert_eq!(entries[0].evidence, EvidenceStrength::Weak);
    assert_eq!(entries[0].evidence_text, "Evidence: Weak");
    assert!(!entries[0].selected);
    assert!(entries[1].selected);
}

#[test]
fn no_evidence_reads_none() {
    let quest = ActiveQuest { evidence_strength: EvidenceStrength::NoEvidence, ..progress("q") };
    let entries = active_quest_entries(&vec![quest], &vec![], &None);
    assert_eq!(entries[0].evidence_text, "Evidence: None");
    assert!(!entries[0].selected);
}

#[test]
fn details_of_selected_quest() {
    let active = vec![progress("merchant_mystery")];
    match quest_details(&Some(s("merchant_mystery")), &active, &vec![mystery()], &records()) {
        QuestDetails::Shown(view) => {
            assert_eq!(view.title, "The Merchant's Mystery");
            assert_eq!(view.description, "Find out what happened to the caravan.");
            let phase = view.phase.unwrap();
            assert_eq!(phase.description, "Look around the market.");
            assert_eq!(phase.objectives.len(), 2);
            assert!(phase.objectives[0].completed);
            assert_eq!(phase.objectives[0].text, "✓ talk to guard");
            assert!(!phase.objectives[1].completed);
            assert_eq!(phase.objectives[1].text, "• check guild records");
            assert_eq!(view.clues.len(), 2);
            assert_eq!(view.clues[0].description, "A torn piece of cloth");
            assert_eq!(view.clues[0].info_text, "Importance: 3 | Found: Search");
            assert_eq!(view.clues[1].description, "Deep cart tracks");
            assert_eq!(view.clues[1].info_text, "Importance: 12 | Found: Examination");
            assert_eq!(view.notes, vec![s("• The guard seemed nervous")]);
        }
        _ => panic!("details expected"),
    }
}

#[test]
fn details_without_selection_or_definition() {
    let active = vec![progress("merchant_mystery")];
    assert!(matches!(quest_details(&None, &active, &vec![mystery()], &records()), QuestDetails::NoSelection));
    assert!(matches!(
        quest_details(&Some(s("lost_cat")), &active, &vec![mystery()], &records()),
        QuestDetails::Unavailable
    ));
    let undefined = vec![progress("lost_cat")];
    assert!(matches!(
        quest_details(&Some(s("lost_cat")), &undefined, &vec![mystery()], &records()),
        QuestDetails::Unavailable
    ));
}

#[test]
fn phase_without_definition_shows_no_objectives() {
    let quest = ActiveQuest { current_phase: s("finale"), ..progress("merchant_mystery") };
    match quest_details(&Some(s("merchant_mystery")), &vec![quest], &vec![mystery()], &records()) {
        QuestDetails::Shown(view) => assert!(view.phase.is_none()),
        _ => panic!("details expected"),
    }
}

#[test]
fn completed_and_clue_lists() {
    let completed = completed_quest_entries(&vec![CompletedQuest {
        quest_id: s("merchant_mystery"),
        resolution_path: s("exposed_the_guild"),
    }]);
    assert_eq!(completed, vec![(s("merchant_mystery"), s("Resolution: exposed_the_guild"))]);

    let clues = clue_list_entries(&records());
    assert_eq!(clues[0].0, "Deep cart tracks");
    assert_eq!(clues[0].1, "Quest: merchant_mystery | Importance: 12 | Method: Examination");
}

#[test]
fn tab_headers_and_empty_messages() {
    assert_eq!(tab_list_texts(JournalTabType::ActiveQuests), ("Active Quests", "No active quests"));
    assert_eq!(tab_list_texts(JournalTabType::CompletedQuests), ("Completed Quests", "No completed quests yet"));
    assert_eq!(tab_list_texts(JournalTabType::Clues), ("All Discovered Clues", "No clues discovered yet"));
    assert_eq!(tab_list_texts(JournalTabType::Notes), ("Player Notes", "No notes written yet"));
}

#[test]
fn action_hints_name_keys_or_bullets() {
    assert_eq!(action_hint("examine_shop_carefully"), "F10 - Examine shop carefully");
    assert_eq!(action_hint("question_aldric_about_travels"), "F11 - Question Aldric about travels");
    assert_eq!(action_hint("check_merchant_guild_records"), "F12 - Check merchant guild records");
    assert_eq!(action_hint("talk_to_marta"), "• talk to marta");
}
