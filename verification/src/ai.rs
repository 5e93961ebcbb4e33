//! Data model of the AI assist layer, the quick action-risk heuristic, and
//! the query/history split applied to a conversation before it is sent out.

use vstd::prelude::*;
use vstd::string::StringExecFns;

use crate::text::{chars_contains, contains_seq, lower_chars, lower_seq, str_chars};

verus! {

/// One chat message.
#[derive(Debug, Clone, PartialEq)]
pub struct AiMessage {
    pub role: String,
    pub content: String,
}

/// A chat request: the conversation so far plus optional context.
#[derive(Debug, Clone, PartialEq)]
pub struct AiRequest {
    pub messages: Vec<AiMessage>,
    pub context: Option<String>,
}

/// A chat answer: the text plus any proposed actions.
#[derive(Debug, Clone, PartialEq)]
pub struct AiResponse {
    pub content: String,
    pub actions: Vec<AiAction>,
}

/// One action proposed by the assistant.
#[derive(Debug, Clone, PartialEq)]
pub struct AiAction {
    pub action_type: String,
    pub target: String,
    pub value: Option<String>,
}

/// Risk levels for AI-proposed operations.
#[derive(Debug, Clone, Copy, PartialEq, Eq, Structural)]
pub enum RiskLevel {
    Low,
    Medium,
    High,
}

/// Risk assessment attached to an AI-proposed operation.
#[derive(Debug, Clone, PartialEq)]
pub struct RiskAssessment {
    pub level: RiskLevel,
    pub reason: String,
    pub requires_confirmation: bool,
}

/// The quick heuristic: submit/delete/payment/transfer/confirm action types
/// are High; download/navigate_external/open_new_tab in the action type or
/// the target are Medium; everything else is Low. Case-insensitive.
pub open spec fn heuristic_level(action: Seq<char>, target: Seq<char>) -> RiskLevel {
    let la = lower_seq(action);
    let lt = lower_seq(target);
    if contains_seq(la, "submit"@) || contains_seq(la, "delete"@) || contains_seq(la, "payment"@)
        || contains_seq(la, "transfer"@) || contains_seq(la, "confirm"@) {
        RiskLevel::High
    } else if contains_seq(la, "download"@) || contains_seq(la, "navigate_external"@)
        || contains_seq(la, "open_new_tab"@) || contains_seq(lt, "download"@) || contains_seq(
        lt,
        "navigate_external"@,
    ) || contains_seq(lt, "open_new_tab"@) {
        RiskLevel::Medium
    } else {
        RiskLevel::Low
    }
}

impl RiskLevel {
    /// Classify an action/target pair with the quick heuristic.
    pub fn from_action(action_type: &str, target: &str) -> (r: Self)
        ensures
            r == heuristic_level(action_type@, target@),
    {
        let la = lower_chars(&str_chars(action_type));
        let lt = lower_chars(&str_chars(target));
        let high0 = str_chars("submit");
        let high1 = str_chars("delete");
        let high2 = str_chars("payment");
        let high3 = str_chars("transfer");
        let high4 = str_chars("confirm");
        if chars_contains(&la, &high0) || chars_contains(&la, &high1) || chars_contains(
            &la,
            &high2,
        ) || chars_contains(&la, &high3) || chars_contains(&la, &high4) {
            return RiskLevel::High;
        }
        let med0 = str_chars("download");
        let med1 = str_chars("navigate_external");
        let med2 = str_chars("open_new_tab");
        if chars_contains(&la, &med0) || chars_contains(&la, &med1) || chars_contains(&la, &med2)
            || chars_contains(&lt, &med0) || chars_contains(&lt, &med1) || chars_contains(
            &lt,
            &med2,
        ) {
            return RiskLevel::Medium;
        }
        RiskLevel::Low
    }
}

/// Split a conversation into the query (the last message's content) and the
/// history (all earlier messages), as the chat call sends them.
pub fn split_query_history(messages: &Vec<AiMessage>) -> (r: (String, Vec<AiMessage>))
    ensures
        messages@.len() == 0 ==> r.0@ == Seq::<char>::empty() && r.1@.len() == 0,
        messages@.len() > 0 ==> r.0@ == messages@.last().content@ && r.1@ == messages@.drop_last(),
{
    if messages.len() == 0 {
        return (String::new(), Vec::new());
    }
    let query = messages[messages.len() - 1].content.clone();
    let mut history: Vec<AiMessage> = Vec::new();
    let mut i: usize = 0;
    while i < messages.len() - 1
        invariant
            messages@.len() > 0,
            i <= messages@.len() - 1,
            history@.len() == i,
            forall|k: int| 0 <= k < i ==> history@[k] == messages@[k],
        decreases messages@.len() - 1 - i,
    {
        let m = AiMessage {
            role: messages[i].role.clone(),
            content: messages[i].content.clone(),
        };
        assert(m == messages@[i as int]);
        history.push(m);
        i += 1;
    }
    assert(history@ =~= messages@.drop_last());
    (query, history)
}

} // verus!
