use eryndor::dialogue::{
    process_dialogue_choice, start_conversation, ChoiceOutcome, Conversation, DialogueChoice,
    DialogueNode, DialogueState, NpcDialogue,
};

fn s(x: &str) -> String {
    x.to_string()
}

fn node(id: &str, flags: &[&str], next: &[&str]) -> DialogueNode {
    DialogueNode {
        id: s(id),
        text: format!("Text of {}", id),
        choices: next
            .iter()
            .enumerate()
            .map(|(i, n)| DialogueChoice { id: format!("c{}", i), text: format!("Go {}", n), next: s(n) })
            .collect(),
        clue_flags: flags.iter().map(|f| s(f)).collect(),
        quest_action: None,
    }
}

fn merchant() -> NpcDialogue {
    NpcDialogue {
        npc_id: s("merchant"),
        name: s("Merchant"),
        default_conversation: s("intro"),
        conversations: vec![
            Conversation {
                id: s("intro"),
                nodes: vec![
                    node("greeting", &[], &["rumours", "end_conversation"]),
                    node("rumours", &["saw_stranger", "heard_cart"], &["end_conversation"]),
                ],
            },
            Conversation { id: s("later"), nodes: vec![node("greeting", &[], &[])] },
        ],
    }
}

fn fresh_state() -> DialogueState {
    DialogueState {
        npc_id: s("merchant"),
        current_conversation: None,
        current_node: s("greeting"),
        conversation_history: vec![],
        flags_set: vec![],
        is_active: false,
    }
}

#[test]
fn conversation_starts_with_default() {
    let npc = merchant();
    let mut state = fresh_state();
    assert_eq!(start_conversation(&mut state, &npc), Some((0, 0)));
    assert!(state.is_active);
    assert_eq!(state.current_conversation, Some(s("intro")));

    let mut lost = DialogueState { current_node: s("nowhere"), ..fresh_state() };
    assert_eq!(start_conversation(&mut lost, &npc), None);
    assert!(!lost.is_active);
    assert_eq!(lost.current_conversation, None);
}

#[test]
fn choice_moves_to_node_and_sets_flags() {
    let npc = merchant();
    let mut state = fresh_state();
    start_conversation(&mut state, &npc);
    let outcome = process_dialogue_choice(&mut state, &npc, "rumours");
    assert_eq!(outcome, ChoiceOutcome::Moved { conversation: 0, node: 1 });
    assert_eq!(state.current_node, "rumours");
    assert_eq!(state.conversation_history, vec![s("rumours")]);
    assert_eq!(state.flags_set, vec![s("saw_stranger"), s("heard_cart")]);
    assert!(state.is_active);
}

#[test]
fn end_conversation_deactivates() {
    let npc = merchant();
    let mut state = fresh_state();
    start_conversation(&mut state, &npc);
    assert_eq!(process_dialogue_choice(&mut state, &npc, "end_conversation"), ChoiceOutcome::Ended);
    assert!(!state.is_active);
    assert_eq!(state.current_node, "greeting");
    assert!(state.conversation_history.is_empty());
}

#[test]
fn unknown_node_changes_nothing() {
    let npc = merchant();
    let mut state = fresh_state();
    assert_eq!(process_dialogue_choice(&mut state, &npc, "secret"), ChoiceOutcome::Ignored);
    assert_eq!(state.current_node, "greeting");
    assert!(state.flags_set.is_empty());

    let mut elsewhere = DialogueState { current_conversation: Some(s("missing")), ..fresh_state() };
    assert_eq!(process_dialogue_choice(&mut elsewhere, &npc, "rumours"), ChoiceOutcome::Ignored);
    assert_eq!(elsewhere.current_node, "greeting");
}

#[test]
fn conversation_under_way_is_used() {
    let npc = merchant();
    let mut state = DialogueState { current_conversation: Some(s("later")), ..fresh_state() };
    assert_eq!(process_dialogue_choice(&mut state, &npc, "rumours"), ChoiceOutcome::Ignored);
    assert_eq!(process_dialogue_choice(&mut state, &npc, "greeting"), ChoiceOutcome::Moved { conversation: 1, node: 0 });
}
