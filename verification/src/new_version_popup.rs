//! The data behind the dashboard's new-version popup: which version is on
//! offer, the release message, and whether a launcher executable is
//! installed that can perform the update.

use vstd::prelude::*;

verus! {

/// A pending new-version notice.
pub struct NewVersionPopup {
    version: String,
    message: String,
    launcher_path: Option<String>,
}

impl NewVersionPopup {
    /// The version on offer.
    pub closed spec fn version_spec(&self) -> Seq<char> {
        self.version@
    }

    /// The release message shown with it.
    pub closed spec fn message_spec(&self) -> Seq<char> {
        self.message@
    }

    /// The installed launcher executable, when one exists.
    pub closed spec fn launcher_path_spec(&self) -> Option<String> {
        self.launcher_path
    }

    /// A notice for `version` with `message`. The hosting application
    /// resolves the launcher executable's path and passes it only when the
    /// file actually exists; without one, the popup offers a download
    /// instead.
    pub fn new(version: String, message: String, launcher_path: Option<String>) -> (r:
        NewVersionPopup)
        ensures
            r.version_spec() == version@,
            r.message_spec() == message@,
            r.launcher_path_spec() == launcher_path,
    {
        NewVersionPopup { version, message, launcher_path }
    }

    /// The version on offer.
    pub fn version(&self) -> (r: &String)
        ensures
            r@ == self.version_spec(),
    {
        &self.version
    }

    /// The release message.
    pub fn message(&self) -> (r: &String)
        ensures
            r@ == self.message_spec(),
    {
        &self.message
    }

    /// The installed launcher executable, when one exists.
    pub fn launcher_path(&self) -> (r: &Option<String>)
        ensures
            *r == self.launcher_path_spec(),
    {
        &self.launcher_path
    }
}

} // verus!
