//! Context assembly: the system prompt, the task, then as much recent
//! history as the budget allows, dropping the oldest first.

use vstd::prelude::*;

use crate::json::{jobj, juint, lemma_entries_view, push_entry, Json, JsonV, NumV};
use crate::types::LlmMessage;

verus! {

/// How much context a call may carry.
#[derive(Debug, Clone, Copy, PartialEq, Eq, Structural)]
pub struct ContextBudget {
    pub max_tokens: usize,
    pub max_history_messages: usize,
}

impl ContextBudget {
    /// 128 000 tokens and 50 messages.
    pub fn default() -> (r: ContextBudget)
        ensures
            r.max_tokens == 128_000,
            r.max_history_messages == 50,
    {
        ContextBudget { max_tokens: 128_000, max_history_messages: 50 }
    }
}

/// The JSON form of a budget.
pub open spec fn budget_v(b: ContextBudget) -> JsonV {
    JsonV::Object(
        seq![
            ("max_tokens"@, JsonV::Number(NumV::PosInt(b.max_tokens as u64))),
            ("max_history_messages"@, JsonV::Number(NumV::PosInt(b.max_history_messages as u64))),
        ],
    )
}

/// A budget as stored: `{"max_tokens": .., "max_history_messages": ..}`.
pub fn budget_json(b: &ContextBudget) -> (r: Json)
    ensures
        r@ == budget_v(*b),
{
    let mut e: Vec<(String, Json)> = Vec::new();
    push_entry(&mut e, "max_tokens", juint(b.max_tokens as u64));
    push_entry(&mut e, "max_history_messages", juint(b.max_history_messages as u64));
    let r = jobj(e);
    proof {
        lemma_entries_view(e@);
        assert(crate::json::json_entries_view(e@) =~= seq![
            ("max_tokens"@, JsonV::Number(NumV::PosInt(b.max_tokens as u64))),
            ("max_history_messages"@, JsonV::Number(NumV::PosInt(b.max_history_messages as u64))),
        ]);
    }
    r
}

/// What a stored budget reads back as: both counts present as non-negative
/// integers that fit a `usize`, else nothing.
pub open spec fn budget_read(v: JsonV) -> Option<ContextBudget> {
    match (v.get_u64("max_tokens"@), v.get_u64("max_history_messages"@)) {
        (Some(t), Some(h)) => if t <= usize::MAX && h <= usize::MAX {
            Some(ContextBudget { max_tokens: t as usize, max_history_messages: h as usize })
        } else {
            None
        },
        _ => None,
    }
}

/// A stored budget read back.
pub fn budget_from_json(j: &Json) -> (r: Option<ContextBudget>)
    ensures
        r == budget_read(j@),
{
    match (j.get_u64("max_tokens"), j.get_u64("max_history_messages")) {
        (Some(t), Some(h)) => {
            if t <= usize::MAX as u64 && h <= usize::MAX as u64 {
                Some(ContextBudget { max_tokens: t as usize, max_history_messages: h as usize })
            } else {
                None
            }
        },
        _ => None,
    }
}

/// A budget written with `budget_json` reads back as the same budget.
pub proof fn lemma_budget_roundtrip(b: ContextBudget)
    ensures
        budget_read(budget_v(b)) == Some(b),
{
    reveal_strlit("max_tokens");
    reveal_strlit("max_history_messages");
    let es = seq![
        ("max_tokens"@, JsonV::Number(NumV::PosInt(b.max_tokens as u64))),
        ("max_history_messages"@, JsonV::Number(NumV::PosInt(b.max_history_messages as u64))),
    ];
    assert("max_tokens"@ != "max_history_messages"@) by {
        assert("max_tokens"@.len() != "max_history_messages"@.len());
    }
    assert(es.drop_first().drop_first().len() == 0);
    assert(crate::json::entries_lookup(es, "max_tokens"@) == Some(es[0].1));
    assert(crate::json::entries_lookup(es.drop_first(), "max_history_messages"@) == Some(es[1].1));
    assert(crate::json::entries_lookup(es, "max_history_messages"@) == Some(es[1].1));
}

/// Where the kept history starts: the last `max_history_messages - 2`
/// messages are kept (two places go to the system prompt and the task).
pub open spec fn history_start(len: nat, max_history_messages: nat) -> int {
    let room: int = if max_history_messages >= 2 { max_history_messages - 2 } else { 0 };
    if len >= room { len - room } else { 0 }
}

/// The history kept in a context: the newest `max_history_messages - 2`
/// messages (none when the budget is below two), or all of them when fewer;
/// so a context never holds more than `max(max_history_messages, 2)`
/// messages, and the messages kept are a suffix of the history.
pub proof fn lemma_history_budget(len: nat, max_history_messages: nat)
    ensures
        ({
            let start = history_start(len, max_history_messages);
            let room: int = if max_history_messages >= 2 { max_history_messages - 2 } else { 0 };
            &&& 0 <= start <= len
            &&& len - start == if len <= room { len as int } else { room }
            &&& 2 + (len - start) <= if max_history_messages >= 2 { max_history_messages as int } else { 2 }
            &&& (start > 0 ==> len - start == room)
        }),
{
}

/// A message carries this role and text.
pub open spec fn is_message(m: LlmMessage, role: Seq<char>, content: Seq<char>) -> bool {
    m.role@ == role && m.content@ == content
}

/// The messages of a call: a `system` message with the prompt, a `user`
/// message with the task goal, then the newest history messages that fit,
/// in order.
pub fn assemble_context(
    system_prompt: &str,
    task_goal: &str,
    history: &[LlmMessage],
    budget: &ContextBudget,
) -> (r: Vec<LlmMessage>)
    ensures
        ({
            let start = history_start(history.len() as nat, budget.max_history_messages as nat);
            let room: int = if budget.max_history_messages >= 2 { budget.max_history_messages - 2 } else { 0 };
            &&& r.len() == 2 + history.len() - start
            &&& r.len() == 2 + if history.len() <= room { history.len() as int } else { room }
            &&& r.len() <= if budget.max_history_messages >= 2 { budget.max_history_messages as int } else { 2 }
            &&& is_message(r@[0], "system"@, system_prompt@)
            &&& is_message(r@[1], "user"@, task_goal@)
            &&& forall|i: int|
                0 <= i < history.len() - start ==> is_message(
                    #[trigger] r@[2 + i],
                    history@[start + i].role@,
                    history@[start + i].content@,
                )
        }),
{
    let mut messages: Vec<LlmMessage> = Vec::new();
    messages.push(LlmMessage { role: String::from_str("system"), content: String::from_str(system_prompt) });
    messages.push(LlmMessage { role: String::from_str("user"), content: String::from_str(task_goal) });
    let max_history: usize = if budget.max_history_messages >= 2 {
        budget.max_history_messages - 2
    } else {
        0
    };
    let start: usize = if history.len() >= max_history {
        history.len() - max_history
    } else {
        0
    };
    let mut i: usize = start;
    while i < history.len()
        invariant
            start <= i <= history.len(),
            start == history_start(history.len() as nat, budget.max_history_messages as nat),
            messages.len() == 2 + i - start,
            is_message(messages@[0], "system"@, system_prompt@),
            is_message(messages@[1], "user"@, task_goal@),
            forall|k: int|
                0 <= k < i - start ==> is_message(
                    #[trigger] messages@[2 + k],
                    history@[start + k].role@,
                    history@[start + k].content@,
                ),
        decreases history.len() - i,
    {
        let m = &history[i];
        messages.push(LlmMessage { role: m.role.clone(), content: m.content.clone() });
        assert(is_message(messages@[2 + (i - start)], history@[i as int].role@, history@[i as int].content@));
        i = i + 1;
    }
    messages
}

} // verus!
