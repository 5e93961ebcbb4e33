//! Notification data model; delivering a toast is the host shell's job.

use vstd::prelude::*;

verus! {

/// A notification to show the user.
#[derive(Debug, Clone, PartialEq)]
pub struct Notification {
    pub id: String,
    pub title: String,
    pub body: String,
    pub icon: Option<String>,
    pub target_url: Option<String>,
}

/// Outcome of a notification attempt.
#[derive(Debug, Clone, PartialEq)]
pub struct NotificationResult {
    pub success: bool,
    pub message: String,
}

} // verus!
