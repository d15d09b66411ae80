use eryndor::dialogue::{choice_for_digit, ends_conversation, QuestActionKind};

#[test]
fn digits_pick_offered_replies() {
    assert_eq!(choice_for_digit(1, 3), Some(0));
    assert_eq!(choice_for_digit(3, 3), Some(2));
    assert_eq!(choice_for_digit(4, 3), None);
    assert_eq!(choice_for_digit(4, 4), Some(3));
    assert_eq!(choice_for_digit(0, 4), None);
    assert_eq!(choice_for_digit(5, 9), None);
}

#[test]
fn end_node_and_quest_actions() {
    assert!(ends_conversation("end_conversation"));
    assert!(!ends_conversation("greeting"));
    assert_eq!(QuestActionKind::classify("start_quest"), QuestActionKind::StartQuest);
    assert_eq!(QuestActionKind::classify("quest_assigned"), QuestActionKind::QuestAssigned);
    assert_eq!(QuestActionKind::classify("give_clue"), QuestActionKind::GiveClue);
    assert_eq!(QuestActionKind::classify("dance"), QuestActionKind::Unknown);
}
