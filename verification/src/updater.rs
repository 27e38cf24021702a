//! Updates: what is known of a release, and whether to look for one.

use vstd::prelude::*;

verus! {

/// What is known of a release.
#[derive(Debug, Clone)]
pub struct UpdateInfo {
    /// The version of the release.
    pub version: String,
    /// The release notes.
    pub notes: String,
    /// Where the release is fetched from.
    pub url: String,
    /// The day of the release.
    pub date: String,
    /// Whether the release is newer than what runs.
    pub available: bool,
}

/// Keeps whether updates are looked for without being asked.
#[derive(Debug)]
pub struct UpdateManager {
    auto_check_enabled: bool,
}

impl UpdateManager {
    /// Whether updates are looked for without being asked.
    pub closed spec fn auto_check(&self) -> bool {
        self.auto_check_enabled
    }

    /// A manager that looks for updates.
    pub fn new() -> (r: Self)
        ensures
            r.auto_check(),
    {
        UpdateManager { auto_check_enabled: true }
    }

    /// Switches the looking for updates.
    pub fn set_auto_check(&mut self, enabled: bool)
        ensures
            final(self).auto_check() == enabled,
    {
        self.auto_check_enabled = enabled;
    }

    /// Whether updates are looked for without being asked.
    pub fn is_auto_check_enabled(&self) -> (r: bool)
        ensures
            r == self.auto_check(),
    {
        self.auto_check_enabled
    }
}

impl Default for UpdateManager {
    fn default() -> (r: Self)
        ensures
            r.auto_check(),
    {
        Self::new()
    }
}

} // verus!
