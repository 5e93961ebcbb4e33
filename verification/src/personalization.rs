//! Behavior-learning scaffolding: logging and analysis entry points with the
//! empty results they currently produce stated exactly.

use std::collections::HashMap;

use vstd::prelude::*;

use crate::platform::{fresh_uuid, now_rfc3339};
use vstd::string::StringExecFns;

verus! {

/// One observed user action.
#[derive(Debug, Clone, PartialEq)]
pub struct BehaviorLog {
    pub id: String,
    pub user_id: String,
    pub action_type: String,
    pub target: Option<String>,
    pub metadata: Option<String>,
    pub created_at: String,
}

/// Aggregated behavior of one user.
#[derive(Debug, Clone)]
pub struct BehaviorPattern {
    pub user_id: String,
    pub frequent_urls: Vec<String>,
    pub frequent_actions: Vec<String>,
    pub time_patterns: HashMap<String, u32>,
    pub last_updated: String,
}

/// Learns from user behavior and produces recommendations.
pub struct PersonalizationEngine;

impl PersonalizationEngine {
    /// Accept a behavior entry; nothing is persisted yet, so this always
    /// succeeds.
    pub fn log_behavior(_log: BehaviorLog) -> (r: Result<(), String>)
        ensures
            r is Ok,
    {
        Ok(())
    }

    /// Analyze a user's behavior; with no log store wired up, the pattern is
    /// empty apart from the user id and a fresh timestamp.
    pub fn analyze_patterns(user_id: &str) -> (r: Result<BehaviorPattern, String>)
        ensures
            r is Ok,
            r->Ok_0.user_id@ == user_id@,
            r->Ok_0.frequent_urls@.len() == 0,
            r->Ok_0.frequent_actions@.len() == 0,
            r->Ok_0.time_patterns@ == Map::<String, u32>::empty(),
    {
        let last_updated = now_rfc3339();
        Ok(
            BehaviorPattern {
                user_id: user_id.to_owned(),
                frequent_urls: Vec::new(),
                frequent_actions: Vec::new(),
                time_patterns: HashMap::new(),
                last_updated,
            },
        )
    }

    /// Accept feedback on a recommendation; nothing is persisted yet, so
    /// this always succeeds.
    pub fn learn_feedback(_user_id: &str, _item_id: &str, _feedback: &str) -> (r: Result<
        (),
        String,
    >)
        ensures
            r is Ok,
    {
        Ok(())
    }
}

/// Record one behavior event for the default user, stamping it with a fresh
/// id and the current time.
pub fn log_behavior(action_type: String, target: Option<String>, metadata: Option<String>) -> (r:
    Result<(), String>)
    ensures
        r is Ok,
{
    let log = BehaviorLog {
        id: fresh_uuid(),
        user_id: String::from_str("default"),
        action_type,
        target,
        metadata,
        created_at: now_rfc3339(),
    };
    PersonalizationEngine::log_behavior(log)
}

} // verus!
