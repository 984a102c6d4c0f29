//! Workspace roots: the directories that bound what a session analyses.

use std::path::PathBuf;
use vstd::prelude::*;

verus! {

/// Whether a handshake declares workspace folders: the list is there and
/// holds at least one folder.
pub open spec fn declares_folders(folders: Option<Vec<PathBuf>>) -> bool {
    folders is Some && folders->0@.len() > 0
}

/// The paths among `candidates` that are there, in the order given.
pub open spec fn present_paths(candidates: Seq<Option<PathBuf>>) -> Seq<PathBuf>
    decreases candidates.len(),
{
    if candidates.len() == 0 {
        Seq::empty()
    } else {
        let earlier = present_paths(candidates.drop_last());
        match candidates.last() {
            Some(path) => earlier.push(path),
            None => earlier,
        }
    }
}

/// Dropping what is not there never makes a sequence longer.
pub proof fn lemma_present_paths_len(candidates: Seq<Option<PathBuf>>)
    ensures
        present_paths(candidates).len() <= candidates.len(),
    decreases candidates.len(),
{
    if candidates.len() > 0 {
        lemma_present_paths_len(candidates.drop_last());
    }
}

/// Keeps the folders that resolved to a path and drops the others, without
/// changing the order.
pub fn keep_present(candidates: Vec<Option<PathBuf>>) -> (paths: Vec<PathBuf>)
    ensures
        paths@ == present_paths(candidates@),
{
    let ghost all = candidates@;
    let mut paths: Vec<PathBuf> = Vec::new();
    for candidate in iter: candidates.into_iter()
        invariant
            iter.seq() == all,
            paths@ == present_paths(all.take(iter.index() as int)),
    {
        proof {
            let i = iter.index() as int;
            assert(all.take(i + 1).drop_last() == all.take(i));
            assert(all.take(i + 1).last() == candidate);
        }
        match candidate {
            Some(path) => paths.push(path),
            None => {},
        }
    }
    proof {
        assert(all.take(all.len() as int) == all);
    }
    paths
}

/// An ordered, never empty sequence of directories.
#[derive(Debug, PartialEq, Eq)]
pub struct WorkspaceRoots {
    paths: Vec<PathBuf>,
}

impl View for WorkspaceRoots {
    type V = Seq<PathBuf>;

    closed spec fn view(&self) -> Seq<PathBuf> {
        self.paths@
    }
}

impl WorkspaceRoots {
    #[verifier::type_invariant]
    spec fn non_empty(self) -> bool {
        self.paths@.len() >= 1
    }

    /// Resolves the roots of a session, in strict precedence: a non-empty
    /// folder list wins over the root path, which wins over the working
    /// directory.
    pub fn resolve(folders: Option<Vec<PathBuf>>, root: Option<PathBuf>, cwd: PathBuf) -> (roots:
        WorkspaceRoots)
        ensures
            roots@.len() >= 1,
            declares_folders(folders) ==> roots@ == folders->0@,
            !declares_folders(folders) && root is Some ==> roots@ == seq![root->0],
            !declares_folders(folders) && root is None ==> roots@ == seq![cwd],
    {
        match folders {
            Some(paths) => {
                if paths.len() > 0 {
                    return WorkspaceRoots { paths };
                }
            },
            None => {},
        }
        let mut paths: Vec<PathBuf> = Vec::new();
        match root {
            Some(path) => paths.push(path),
            None => paths.push(cwd),
        }
        WorkspaceRoots { paths }
    }

    /// The number of roots, which is at least one.
    pub fn len(&self) -> (n: usize)
        ensures
            n == self@.len(),
            n >= 1,
    {
        proof {
            use_type_invariant(self);
        }
        self.paths.len()
    }

    /// The roots, in order.
    pub fn as_vec(&self) -> (paths: &Vec<PathBuf>)
        ensures
            paths@ == self@,
            paths@.len() >= 1,
    {
        proof {
            use_type_invariant(self);
        }
        &self.paths
    }

    /// Gives the roots up, in order.
    pub fn into_vec(self) -> (paths: Vec<PathBuf>)
        ensures
            paths@ == self@,
            paths@.len() >= 1,
    {
        proof {
            use_type_invariant(&self);
        }
        self.paths
    }
}

} // verus!
