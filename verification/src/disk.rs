//! What the file system answers when asked about a path.

use vstd::prelude::*;

verus! {

/// What the file system said when asked whether something exists at a path,
/// together with the path that was asked about. Only `path_exists` makes one.
pub struct PathAnswer {
    exists: bool,
    asked: Ghost<Seq<char>>,
}

impl PathAnswer {
    /// Whether the file system said that something exists there.
    pub closed spec fn said_exists(&self) -> bool {
        self.exists
    }

    /// The path the question was about.
    pub closed spec fn asked(&self) -> Seq<char> {
        self.asked@
    }

    /// Whether the file system said that something exists there.
    pub fn found(&self) -> (b: bool)
        ensures
            b == self.said_exists(),
    {
        self.exists
    }
}

/// `std::path::Path::exists`, asked about `raw`: whether the file system
/// holds an entry there at that moment. The answer depends on the disk, so
/// no clause states it; the contract fixes which path was asked about.
#[verifier::external_body]
pub(crate) fn path_exists(raw: &str) -> (r: PathAnswer)
    ensures
        r.asked() == raw@,
{
    PathAnswer { exists: std::path::Path::new(raw).exists(), asked: Ghost(raw@) }
}

} // verus!
