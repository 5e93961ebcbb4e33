//! Records exchanged with the storage layer. The SQLite sink itself is an
//! external collaborator; only the record shapes live here.

use vstd::prelude::*;

verus! {

/// A stored user.
#[derive(Debug, Clone, PartialEq)]
pub struct User {
    pub id: String,
    pub name: String,
    pub department: String,
    pub role: String,
}

/// One persisted assistant conversation.
#[derive(Debug, Clone, PartialEq)]
pub struct AssistantSession {
    pub id: String,
    pub user_id: String,
    pub messages: String,
    pub created_at: String,
}

/// Per-user preferences as persisted.
#[derive(Debug, Clone, PartialEq)]
pub struct UserPreferences {
    pub language: String,
    pub theme: String,
    pub voice_enabled: bool,
    pub recent_systems: Vec<String>,
}

/// One audit record: the assessed action, its risk level and when it
/// happened.
#[derive(Debug, Clone, PartialEq)]
pub struct AuditLogEntry {
    pub id: String,
    pub user_id: String,
    pub action: String,
    pub details: String,
    pub risk_level: String,
    pub created_at: String,
}

} // verus!
