//! The scoped guard over a container's working directory: whoever holds
//! it owes the directory's recursive removal on every exit path, success
//! or failure, so that nothing of a run survives it.

use vstd::prelude::*;

verus! {

/// Ownership of a directory that must not outlive the run.
pub struct RemoveDirGuard {
    dir: String,
}

impl RemoveDirGuard {
    pub closed spec fn spec_dir(self) -> Seq<char> {
        self.dir@
    }

    /// Takes ownership of the directory's path.
    pub fn new(dir: String) -> (r: RemoveDirGuard)
        ensures
            r.spec_dir() == dir@,
    {
        RemoveDirGuard { dir }
    }

    /// The directory owed removal.
    pub fn dir(&self) -> (r: &String)
        ensures
            r@ == self.spec_dir(),
    {
        &self.dir
    }
}

} // verus!
