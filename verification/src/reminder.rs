//! Reminder rules and records, and the id assignment applied when a rule is
//! created.

use vstd::prelude::*;
use vstd::string::StringExecFns;

use crate::platform::fresh_uuid;

verus! {

/// Configuration of a reminder trigger.
#[derive(Debug, Clone, PartialEq)]
pub struct TriggerConfig {
    pub trigger_type: String,
    pub value: String,
    pub interval_minutes: Option<i32>,
}

/// A reminder rule.
#[derive(Debug, Clone, PartialEq)]
pub struct ReminderRule {
    pub id: String,
    pub name: String,
    pub trigger_type: String,
    pub trigger_config: TriggerConfig,
    pub content: String,
    pub target_url: Option<String>,
    pub enabled: bool,
}

/// One fired reminder.
#[derive(Debug, Clone, PartialEq)]
pub struct ReminderRecord {
    pub id: String,
    pub rule_id: String,
    pub user_id: String,
    pub content: String,
    pub target_url: Option<String>,
    pub triggered_at: String,
    pub is_read: bool,
}

/// Accept a new reminder rule, assigning a fresh id when none was given;
/// every other field is kept as submitted.
pub fn create_reminder_rule(rule: ReminderRule) -> (r: Result<ReminderRule, String>)
    ensures
        r is Ok,
        rule.id@.len() > 0 ==> r->Ok_0 == rule,
        rule.id@.len() == 0 ==> r->Ok_0.id@.len() == 36 && r->Ok_0.name == rule.name
            && r->Ok_0.trigger_type == rule.trigger_type && r->Ok_0.trigger_config
            == rule.trigger_config && r->Ok_0.content == rule.content && r->Ok_0.target_url
            == rule.target_url && r->Ok_0.enabled == rule.enabled,
{
    let mut new_rule = rule;
    if new_rule.id.as_str().is_empty() {
        new_rule.id = fresh_uuid();
    }
    Ok(new_rule)
}

} // verus!
