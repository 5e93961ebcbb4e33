//! Core library of a desktop assistant shell: a risk-assessment engine that
//! classifies proposed automation actions, plus the data model and pure logic
//! of the surrounding subsystems (tabs, configuration, permissions, voice).

pub mod ai;
pub mod auth;
pub mod browser;
pub mod config;
pub mod downloader;
pub mod file_ops;
pub mod notification;
pub mod personalization;
pub mod platform;
pub mod reminder;
pub mod security;
pub mod storage;
pub mod text;
pub mod voice;

use vstd::prelude::*;

verus! {

/// Application version, matching the package version.
pub fn get_version() -> (r: &'static str)
    ensures
        r@ == "0.1.0"@,
{
    "0.1.0"
}

} // verus!
