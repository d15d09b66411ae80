//! Rules of conversations with non-player characters: which reply a number
//! key picks, how a conversation starts, moves from node to node and ends,
//! and what a quest action in a dialogue node asks for.
use vstd::prelude::*;
use crate::text::str_eq;

verus! {

/// The node name that ends a conversation instead of leading to a node.
pub open spec fn end_node() -> Seq<char> {
    "end_conversation"@
}

/// The number keys 1 to 4 pick the first to fourth reply, when the node
/// offers that many; any other key, or a reply the node does not offer,
/// picks nothing.
pub fn choice_for_digit(digit: u8, choice_count: usize) -> (choice: Option<usize>)
    ensures
        choice == if 1 <= digit <= 4 && (digit - 1) < choice_count {
            Some((digit - 1) as usize)
        } else {
            None
        },
{
    if digit >= 1 && digit <= 4 {
        let index: usize = (digit - 1) as usize;
        if index < choice_count {
            return Some(index);
        }
    }
    None
}

/// Whether moving to `next_node` ends the conversation.
pub fn ends_conversation(next_node: &str) -> (ends: bool)
    ensures
        ends == (next_node@ == end_node()),
{
    str_eq(next_node, "end_conversation")
}

/// What a quest action attached to a dialogue node asks for.
#[derive(Debug, Clone, Copy, PartialEq, Eq, Structural)]
pub enum QuestActionKind {
    StartQuest,
    QuestAssigned,
    GiveClue,
    Unknown,
}

/// The kind of quest action that an action type names.
pub open spec fn quest_action_kind(action_type: Seq<char>) -> QuestActionKind {
    if action_type == "start_quest"@ {
        QuestActionKind::StartQuest
    } else if action_type == "quest_assigned"@ {
        QuestActionKind::QuestAssigned
    } else if action_type == "give_clue"@ {
        QuestActionKind::GiveClue
    } else {
        QuestActionKind::Unknown
    }
}

impl QuestActionKind {
    /// Classifies a quest action by its type name.
    pub fn classify(action_type: &str) -> (kind: QuestActionKind)
        ensures
            kind == quest_action_kind(action_type@),
    {
        if str_eq(action_type, "start_quest") {
            QuestActionKind::StartQuest
        } else if str_eq(action_type, "quest_assigned") {
            QuestActionKind::QuestAssigned
        } else if str_eq(action_type, "give_clue") {
            QuestActionKind::GiveClue
        } else {
            QuestActionKind::Unknown
        }
    }
}

/// A reply the player can pick, and the node it leads to.
pub struct DialogueChoice {
    pub id: String,
    pub text: String,
    pub next: String,
}

/// A node of a conversation: what the character says, the replies, and
/// the clue flags that reaching it sets.
pub struct DialogueNode {
    pub id: String,
    pub text: String,
    pub choices: Vec<DialogueChoice>,
    pub clue_flags: Vec<String>,
    /// The type of the quest action attached to the node, if any.
    pub quest_action: Option<String>,
}

/// A conversation: its nodes, found by their identifiers.
pub struct Conversation {
    pub id: String,
    pub nodes: Vec<DialogueNode>,
}

/// Everything a character can say.
pub struct NpcDialogue {
    pub npc_id: String,
    pub name: String,
    pub default_conversation: String,
    pub conversations: Vec<Conversation>,
}

/// Where a character's conversation with the player stands.
pub struct DialogueState {
    pub npc_id: String,
    pub current_conversation: Option<String>,
    pub current_node: String,
    pub conversation_history: Vec<String>,
    pub flags_set: Vec<String>,
    pub is_active: bool,
}

/// What picking a reply did.
#[derive(Debug, Clone, Copy, PartialEq, Eq, Structural)]
pub enum ChoiceOutcome {
    /// The reply ended the conversation.
    Ended,
    /// The conversation moved to the node at `node` of the conversation at
    /// `conversation`.
    Moved { conversation: usize, node: usize },
    /// The conversation or the node named by the reply does not exist:
    /// nothing changed.
    Ignored,
}

/// The texts of a list of strings.
pub open spec fn texts(items: Seq<String>) -> Seq<Seq<char>> {
    items.map_values(|s: String| s@)
}

/// The position of the first conversation with identifier `id` at or after
/// `start`, or -1.
pub open spec fn conversation_index(conversations: Seq<Conversation>, id: Seq<char>, start: int) -> int
    decreases conversations.len() - start,
{
    if start < 0 || start >= conversations.len() {
        -1
    } else if conversations[start].id@ == id {
        start
    } else {
        conversation_index(conversations, id, start + 1)
    }
}

/// The position of the first node with identifier `id` at or after `start`,
/// or -1.
pub open spec fn node_index(nodes: Seq<DialogueNode>, id: Seq<char>, start: int) -> int
    decreases nodes.len() - start,
{
    if start < 0 || start >= nodes.len() {
        -1
    } else if nodes[start].id@ == id {
        start
    } else {
        node_index(nodes, id, start + 1)
    }
}

/// The conversation a character holds: the one under way, else its default.
pub open spec fn conversation_id(state: DialogueState, npc: NpcDialogue) -> Seq<char> {
    match state.current_conversation {
        Some(id) => id@,
        None => npc.default_conversation@,
    }
}

fn find_conversation(conversations: &Vec<Conversation>, id: &str) -> (found: Option<usize>)
    ensures
        match found {
            Some(k) => k < conversations@.len() && conversation_index(conversations@, id@, 0) == k,
            None => conversation_index(conversations@, id@, 0) == -1,
        },
{
    let mut k: usize = 0;
    while k < conversations.len()
        invariant
            k <= conversations@.len(),
            conversation_index(conversations@, id@, 0) == conversation_index(
                conversations@,
                id@,
                k as int,
            ),
        decreases conversations@.len() - k,
    {
        if str_eq(conversations[k].id.as_str(), id) {
            return Some(k);
        }
        k = k + 1;
    }
    None
}

fn find_node(nodes: &Vec<DialogueNode>, id: &str) -> (found: Option<usize>)
    ensures
        match found {
            Some(k) => k < nodes@.len() && node_index(nodes@, id@, 0) == k,
            None => node_index(nodes@, id@, 0) == -1,
        },
{
    let mut k: usize = 0;
    while k < nodes.len()
        invariant
            k <= nodes@.len(),
            node_index(nodes@, id@, 0) == node_index(nodes@, id@, k as int),
        decreases nodes@.len() - k,
    {
        if str_eq(nodes[k].id.as_str(), id) {
            return Some(k);
        }
        k = k + 1;
    }
    None
}

fn held_conversation(state: &DialogueState, npc: &NpcDialogue) -> (id: String)
    ensures
        id@ == conversation_id(*state, *npc),
{
    match &state.current_conversation {
        Some(c) => c.clone(),
        None => npc.default_conversation.clone(),
    }
}

/// Starts a conversation with a character: the conversation under way, else
/// the default one, at the character's current node. Where both exist the
/// character's state becomes active with that conversation under way, and
/// the positions of the conversation and the node come back; otherwise
/// nothing changes.
pub fn start_conversation(state: &mut DialogueState, npc: &NpcDialogue) -> (started: Option<(usize, usize)>)
    ensures
        ({
            let c = conversation_index(npc.conversations@, conversation_id(*old(state), *npc), 0);
            let n = if c >= 0 {
                node_index(npc.conversations@[c].nodes@, old(state).current_node@, 0)
            } else {
                -1
            };
            &&& (started is Some <==> c >= 0 && n >= 0)
            &&& (started matches Some(p) ==> {
                &&& p.0 == c && p.1 == n
                &&& final(state).is_active
                &&& final(state).current_conversation matches Some(id) && id@ == conversation_id(
                    *old(state),
                    *npc,
                )
                &&& final(state).npc_id == old(state).npc_id
                &&& final(state).current_node == old(state).current_node
                &&& final(state).conversation_history == old(state).conversation_history
                &&& final(state).flags_set == old(state).flags_set
            })
            &&& (started is None ==> *final(state) == *old(state))
        }),
{
    let id = held_conversation(state, npc);
    let c = match find_conversation(&npc.conversations, id.as_str()) {
        Some(c) => c,
        None => return None,
    };
    let n = match find_node(&npc.conversations[c].nodes, state.current_node.as_str()) {
        Some(n) => n,
        None => return None,
    };
    state.is_active = true;
    state.current_conversation = Some(id);
    Some((c, n))
}

/// Picks a reply that leads to `next_node`. "end_conversation" ends the
/// conversation: the character's state becomes inactive. Otherwise, where
/// the conversation under way (else the default one) holds a node with
/// that identifier, the character moves there: it becomes the current
/// node, joins the history, and the node's clue flags are set in order.
/// Where it holds none, nothing changes.
pub fn process_dialogue_choice(state: &mut DialogueState, npc: &NpcDialogue, next_node: &str) -> (outcome: ChoiceOutcome)
    ensures
        next_node@ == end_node() ==> {
            &&& outcome is Ended
            &&& !final(state).is_active
            &&& final(state).npc_id == old(state).npc_id
            &&& final(state).current_conversation == old(state).current_conversation
            &&& final(state).current_node == old(state).current_node
            &&& final(state).conversation_history == old(state).conversation_history
            &&& final(state).flags_set == old(state).flags_set
        },
        next_node@ != end_node() ==> ({
            let c = conversation_index(npc.conversations@, conversation_id(*old(state), *npc), 0);
            let n = if c >= 0 {
                node_index(npc.conversations@[c].nodes@, next_node@, 0)
            } else {
                -1
            };
            &&& (c < 0 || n < 0) ==> outcome is Ignored && *final(state) == *old(state)
            &&& (c >= 0 && n >= 0) ==> {
                &&& outcome == ChoiceOutcome::Moved { conversation: c as usize, node: n as usize }
                &&& final(state).current_node@ == next_node@
                &&& texts(final(state).conversation_history@) == texts(
                    old(state).conversation_history@,
                ).push(next_node@)
                &&& texts(final(state).flags_set@) == texts(old(state).flags_set@) + texts(
                    npc.conversations@[c].nodes@[n].clue_flags@,
                )
                &&& final(state).npc_id == old(state).npc_id
                &&& final(state).current_conversation == old(state).current_conversation
                &&& final(state).is_active == old(state).is_active
            }
        }),
{
    if ends_conversation(next_node) {
        state.is_active = false;
        return ChoiceOutcome::Ended;
    }
    let id = held_conversation(state, npc);
    let c = match find_conversation(&npc.conversations, id.as_str()) {
        Some(c) => c,
        None => return ChoiceOutcome::Ignored,
    };
    let nodes = &npc.conversations[c].nodes;
    let n = match find_node(nodes, next_node) {
        Some(n) => n,
        None => return ChoiceOutcome::Ignored,
    };
    let ghost old_history = state.conversation_history@;
    let ghost old_flags = state.flags_set@;
    let ghost old_npc_id = state.npc_id;
    let ghost old_conversation = state.current_conversation;
    let ghost old_active = state.is_active;
    state.current_node = String::from_str(next_node);
    state.conversation_history.push(String::from_str(next_node));
    assert(texts(state.conversation_history@) =~= texts(old_history).push(next_node@));
    let flags = &nodes[n].clue_flags;
    let count = flags.len();
    let mut i: usize = 0;
    while i < count
        invariant
            count == flags@.len(),
            i <= count,
            texts(state.flags_set@) == texts(old_flags) + texts(flags@.take(i as int)),
            state.current_node@ == next_node@,
            texts(state.conversation_history@) == texts(old_history).push(next_node@),
            state.npc_id == old_npc_id,
            state.current_conversation == old_conversation,
            state.is_active == old_active,
        decreases count - i,
    {
        let ghost before = state.flags_set@;
        state.flags_set.push(flags[i].clone());
        assert(flags@.take(i + 1) =~= flags@.take(i as int).push(flags@[i as int]));
        assert(texts(state.flags_set@) =~= texts(before).push(flags@[i as int]@));
        assert(texts(flags@.take(i + 1)) =~= texts(flags@.take(i as int)).push(flags@[i as int]@));
        i = i + 1;
    }
    assert(flags@.take(count as int) =~= flags@);
    ChoiceOutcome::Moved { conversation: c, node: n }
}

} // verus!
