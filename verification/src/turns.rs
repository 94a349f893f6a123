use vstd::prelude::*;
use crate::text::{
    is_white_space, lemma_trim_end_keeps_non_white, same_text, trim_end_str, trim_end_ws,
};

verus! {

/// One turn of a chat conversation sent to the LLM.
#[derive(Debug, Clone)]
pub struct ChatTurn {
    pub role: String,
    pub content: String,
}

/// The mathematical value of a [`ChatTurn`].
pub struct TurnView {
    pub role: Seq<char>,
    pub content: Seq<char>,
}

impl View for ChatTurn {
    type V = TurnView;

    open spec fn view(&self) -> TurnView {
        TurnView { role: self.role@, content: self.content@ }
    }
}

/// The role of turns written by the user.
pub const USER_ROLE: &'static str = "user";

/// The role of turns written by the model.
pub const ASSISTANT_ROLE: &'static str = "assistant";

/// The role of the turn that carries the system prompt.
pub const SYSTEM_ROLE: &'static str = "system";

/// What separates the contents of merged turns.
pub const TURN_SEPARATOR: &'static str = "\n\n";

/// Label of assistant turns in a flattened conversation.
pub const ASSISTANT_LABEL: &'static str = "Assistant";

/// Label of every other turn in a flattened conversation.
pub const USER_LABEL: &'static str = "User";

/// What follows the label of a turn in a flattened conversation.
pub const LABEL_SEPARATOR: &'static str = ": ";

/// The views of a sequence of turns.
pub open spec fn turns_view(turns: Seq<ChatTurn>) -> Seq<TurnView> {
    turns.map_values(|t: ChatTurn| t@)
}

/// Merges each run of consecutive turns with the same role into one turn,
/// whose content is theirs joined by a blank line.
pub open spec fn merge_roles(turns: Seq<TurnView>) -> Seq<TurnView>
    decreases turns.len(),
{
    if turns.len() == 0 {
        Seq::empty()
    } else {
        let merged = merge_roles(turns.drop_last());
        let t = turns.last();
        if merged.len() > 0 && merged.last().role == t.role {
            merged.update(
                merged.len() - 1,
                TurnView {
                    role: merged.last().role,
                    content: merged.last().content + TURN_SEPARATOR@ + t.content,
                },
            )
        } else {
            merged.push(t)
        }
    }
}

/// No two neighbouring turns share a role.
pub open spec fn roles_alternate(turns: Seq<TurnView>) -> bool {
    forall|i: int| 0 <= i < turns.len() - 1 ==> #[trigger] turns[i].role != turns[i + 1].role
}

/// The label that a flattened conversation gives a role.
pub open spec fn role_label(role: Seq<char>) -> Seq<char> {
    if role == ASSISTANT_ROLE@ {
        ASSISTANT_LABEL@
    } else {
        USER_LABEL@
    }
}

/// A conversation written out as `Label: content` paragraphs.
pub open spec fn conversation_text(turns: Seq<TurnView>) -> Seq<char>
    decreases turns.len(),
{
    if turns.len() == 0 {
        Seq::empty()
    } else {
        conversation_text(turns.drop_last()) + role_label(turns.last().role) + LABEL_SEPARATOR@
            + turns.last().content + TURN_SEPARATOR@
    }
}

/// One turn written out as a paragraph of a flattened conversation: its
/// label, a colon, its content and a blank line.
pub open spec fn turn_paragraph(t: TurnView) -> Seq<char> {
    role_label(t.role) + LABEL_SEPARATOR@ + t.content + TURN_SEPARATOR@
}

/// A flattened conversation is its first turn's paragraph followed by the
/// flattened rest.
pub proof fn lemma_conversation_text_front(first: TurnView, rest: Seq<TurnView>)
    ensures
        conversation_text(seq![first] + rest) == turn_paragraph(first) + conversation_text(rest),
    decreases rest.len(),
{
    let all = seq![first] + rest;
    if rest.len() == 0 {
        assert(all.drop_last() =~= Seq::<TurnView>::empty());
        assert(all.last() == first);
        assert(conversation_text(all.drop_last()) =~= Seq::<char>::empty());
        assert(conversation_text(all) =~= turn_paragraph(first));
        assert(conversation_text(rest) =~= Seq::<char>::empty());
        assert(turn_paragraph(first) + conversation_text(rest) =~= turn_paragraph(first));
    } else {
        assert(all.drop_last() =~= seq![first] + rest.drop_last());
        assert(all.last() == rest.last());
        lemma_conversation_text_front(first, rest.drop_last());
        let x = role_label(rest.last().role) + LABEL_SEPARATOR@ + rest.last().content
            + TURN_SEPARATOR@;
        let c = conversation_text(rest.drop_last());
        assert(conversation_text(all) =~= turn_paragraph(first) + c + x);
        assert(conversation_text(rest) =~= c + x);
        assert(turn_paragraph(first) + c + x =~= turn_paragraph(first) + (c + x));
    }
}

/// A flattened conversation of at least one turn keeps some text after
/// trailing white space is trimmed: the colon after its last label.
pub proof fn lemma_conversation_text_not_blank(turns: Seq<TurnView>)
    requires
        turns.len() > 0,
    ensures
        trim_end_ws(conversation_text(turns)).len() > 0,
{
    let s = conversation_text(turns);
    let head = conversation_text(turns.drop_last()) + role_label(turns.last().role);
    reveal_strlit(": ");
    reveal_strlit("Assistant");
    reveal_strlit("User");
    assert(LABEL_SEPARATOR@[0] == ':');
    assert(s[head.len() as int] == ':');
    assert(!is_white_space(':'));
    lemma_trim_end_keeps_non_white(s, head.len() as int);
}

/// The messages of a chat request: for Anthropic the conversation with
/// same-role runs merged; for the others the system prompt as a first turn,
/// then the conversation.
pub open spec fn request_turns(
    is_claude: bool,
    system_prompt: Seq<char>,
    turns: Seq<TurnView>,
) -> Seq<TurnView> {
    if is_claude {
        merge_roles(turns)
    } else {
        seq![TurnView { role: SYSTEM_ROLE@, content: system_prompt }] + turns
    }
}

/// After merging, no two neighbouring turns share a role.
pub proof fn law_merged_roles_alternate(turns: Seq<TurnView>)
    ensures
        roles_alternate(merge_roles(turns)),
    decreases turns.len(),
{
    if turns.len() > 0 {
        law_merged_roles_alternate(turns.drop_last());
    }
}

/// Merging leaves a conversation whose roles already alternate unchanged.
pub proof fn law_merge_keeps_alternating_turns(turns: Seq<TurnView>)
    requires
        roles_alternate(turns),
    ensures
        merge_roles(turns) == turns,
    decreases turns.len(),
{
    if turns.len() > 0 {
        let init = turns.drop_last();
        assert(roles_alternate(init)) by {
            assert forall|i: int| 0 <= i < init.len() - 1 implies #[trigger] init[i].role
                != init[i + 1].role by {
                assert(turns[i].role != turns[i + 1].role);
            }
        }
        law_merge_keeps_alternating_turns(init);
        if init.len() > 0 {
            assert(turns[turns.len() - 2].role != turns[turns.len() - 1].role);
        }
        assert(init.push(turns.last()) =~= turns);
    }
}

/// Merging twice is merging once.
pub proof fn law_merge_is_idempotent(turns: Seq<TurnView>)
    ensures
        merge_roles(merge_roles(turns)) == merge_roles(turns),
{
    law_merged_roles_alternate(turns);
    law_merge_keeps_alternating_turns(merge_roles(turns));
}

/// Merging never adds turns, and keeps at least one when there was one.
pub proof fn law_merge_not_longer(turns: Seq<TurnView>)
    ensures
        merge_roles(turns).len() <= turns.len(),
        turns.len() > 0 ==> merge_roles(turns).len() > 0,
    decreases turns.len(),
{
    if turns.len() > 0 {
        law_merge_not_longer(turns.drop_last());
    }
}

/// A turn with the same role and content.
pub fn copy_turn(t: &ChatTurn) -> (r: ChatTurn)
    ensures
        r@ == t@,
{
    ChatTurn { role: t.role.clone(), content: t.content.clone() }
}

/// Anthropic requires strictly alternating user/assistant roles; merges
/// consecutive same-role turns, joining their contents with a blank line.
pub fn merge_consecutive_roles(messages: &[ChatTurn]) -> (merged: Vec<ChatTurn>)
    ensures
        turns_view(merged@) == merge_roles(turns_view(messages@)),
{
    let mut merged: Vec<ChatTurn> = Vec::new();
    let n = messages.len();
    assert(turns_view(messages@).take(0) =~= Seq::<TurnView>::empty());
    for i in 0..n
        invariant
            n == messages@.len(),
            turns_view(merged@) == merge_roles(turns_view(messages@).take(i as int)),
    {
        let msg = &messages[i];
        let ghost before = turns_view(merged@);
        assert(turns_view(messages@).take(i + 1).drop_last() =~= turns_view(messages@).take(
            i as int,
        ));
        assert(turns_view(messages@).take(i + 1).last() == msg@);
        let len = merged.len();
        if len > 0 && merged[len - 1].role == msg.role {
            let mut last = merged.pop().unwrap();
            assert(turns_view(merged@) =~= before.drop_last());
            last.content.append(TURN_SEPARATOR);
            last.content.append(msg.content.as_str());
            merged.push(last);
            assert(turns_view(merged@) =~= before.update(
                before.len() - 1,
                TurnView {
                    role: before.last().role,
                    content: before.last().content + TURN_SEPARATOR@ + msg@.content,
                },
            ));
        } else {
            merged.push(copy_turn(msg));
            assert(turns_view(merged@) =~= before.push(msg@));
        }
    }
    assert(turns_view(messages@).take(n as int) =~= turns_view(messages@));
    merged
}

/// Writes a conversation out as `Label: content` paragraphs ("Assistant" for
/// assistant turns, "User" for the others), without trailing white space.
/// This is the single prompt sent to a model that takes no turn list.
pub fn flatten_conversation(messages: &[ChatTurn]) -> (r: String)
    ensures
        r@ == trim_end_ws(conversation_text(turns_view(messages@))),
{
    let mut text = String::new();
    let n = messages.len();
    assert(turns_view(messages@).take(0) =~= Seq::<TurnView>::empty());
    for i in 0..n
        invariant
            n == messages@.len(),
            text@ == conversation_text(turns_view(messages@).take(i as int)),
    {
        let msg = &messages[i];
        assert(turns_view(messages@).take(i + 1).drop_last() =~= turns_view(messages@).take(
            i as int,
        ));
        assert(turns_view(messages@).take(i + 1).last() == msg@);
        if same_text(msg.role.as_str(), ASSISTANT_ROLE) {
            text.append(ASSISTANT_LABEL);
        } else {
            text.append(USER_LABEL);
        }
        text.append(LABEL_SEPARATOR);
        text.append(msg.content.as_str());
        text.append(TURN_SEPARATOR);
    }
    assert(turns_view(messages@).take(n as int) =~= turns_view(messages@));
    String::from_str(trim_end_str(text.as_str()))
}

/// The messages of a chat request (see [`request_turns`]).
pub fn chat_request_messages(
    is_claude: bool,
    system_prompt: &str,
    messages: &[ChatTurn],
) -> (r: Vec<ChatTurn>)
    ensures
        turns_view(r@) == request_turns(is_claude, system_prompt@, turns_view(messages@)),
{
    if is_claude {
        return merge_consecutive_roles(messages);
    }
    let mut all: Vec<ChatTurn> = Vec::new();
    all.push(
        ChatTurn { role: String::from_str(SYSTEM_ROLE), content: String::from_str(system_prompt) },
    );
    let n = messages.len();
    for i in 0..n
        invariant
            n == messages@.len(),
            turns_view(all@) == seq![TurnView { role: SYSTEM_ROLE@, content: system_prompt@ }]
                + turns_view(messages@).take(i as int),
    {
        let ghost before = turns_view(all@);
        all.push(copy_turn(&messages[i]));
        assert(turns_view(all@) =~= before.push(messages@[i as int]@));
        assert(turns_view(messages@).take(i + 1) =~= turns_view(messages@).take(i as int).push(
            messages@[i as int]@,
        ));
        assert(turns_view(all@) =~= seq![TurnView { role: SYSTEM_ROLE@, content: system_prompt@ }]
            + turns_view(messages@).take(i + 1));
    }
    assert(turns_view(messages@).take(n as int) =~= turns_view(messages@));
    all
}

} // verus!
