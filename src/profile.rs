//! Data shared with the browser-profile side of the application.
use vstd::prelude::*;

verus! {

/// State of a profile's synchronisation with remote storage.
#[derive(Debug, Clone, Copy, PartialEq, Eq, Structural)]
pub enum SyncStatus {
    Disabled,
    Syncing,
    Synced,
    Error,
}

impl Default for SyncStatus {
    fn default() -> (r: SyncStatus)
        ensures
            r == SyncStatus::Disabled,
    {
        SyncStatus::Disabled
    }
}

/// The release channel a profile gets when none is recorded.
pub fn default_release_type() -> (r: String)
    ensures
        r@ == "stable"@,
{
    String::from_str("stable")
}

/// Browser fingerprint of a profile imported from the zs-mkt tool.
#[derive(Debug, Clone)]
pub struct ZsMktFingerprint {
    pub user_agent: String,
    pub timezone: String,
    pub language: String,
    pub platform: Option<String>,
}

} // verus!
