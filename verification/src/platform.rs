//! Trusted wrappers around platform facilities: fresh identifiers, the clock,
//! and well-known directories. Each wrapper holds exactly one outside call;
//! nothing is assumed beyond what the called crate documents.

use vstd::prelude::*;

verus! {

/// Relies on `uuid::Uuid::new_v4` and its `Display` impl: a fresh random
/// UUID rendered in the hyphenated form, which is always 36 characters.
#[verifier::external_body]
pub(crate) fn fresh_uuid() -> (r: String)
    ensures
        r@.len() == 36,
{
    uuid::Uuid::new_v4().to_string()
}

/// Relies on `chrono::Utc::now` and `DateTime::to_rfc3339`: the current UTC
/// time as an RFC 3339 string. The value depends on the clock, so nothing is
/// assumed of it.
#[verifier::external_body]
pub(crate) fn now_rfc3339() -> (r: String) {
    chrono::Utc::now().to_rfc3339()
}

/// Relies on `dirs::download_dir`: the platform download directory, if the
/// platform defines one. The value depends on the environment, so nothing is
/// assumed of it.
#[verifier::external_body]
pub(crate) fn download_dir_path() -> (r: Option<String>) {
    dirs::download_dir().map(|p| p.to_string_lossy().to_string())
}

/// Relies on `std::path::Path::parent`: the parent directory of a path,
/// rendered back to a string. Path syntax is platform-dependent, so nothing
/// is assumed of the value.
#[verifier::external_body]
pub(crate) fn parent_dir(path: &str) -> (r: Option<String>) {
    std::path::Path::new(path).parent().map(|p| p.to_string_lossy().to_string())
}

} // verus!
