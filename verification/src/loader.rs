//! IDL content resolution across an ordered search-path list: the
//! loader owns path resolution, the generator only asks for content by
//! name. Reading a file is outside work; the loader states which paths
//! to try, in order, and which read outcome is the answer: the first
//! successful one, a not-found failure only once every directory has
//! been tried.

use vstd::prelude::*;
use vstd::string::StringExecFns;

verus! {

/// Every directory was tried and none held the requested file.
#[derive(Debug)]
pub struct NotFoundError;

/// Resolves file content by name across an ordered search-path list.
pub struct Loader {
    pub search_path: Vec<String>,
}

/// The index of the first successful read outcome, or `reads.len()`
/// when every read failed.
pub open spec fn spec_first_read(reads: Seq<Option<String>>) -> int
    decreases reads.len(),
{
    if reads.len() == 0 {
        0
    } else if reads.first() is Some {
        0
    } else {
        1 + spec_first_read(reads.drop_first())
    }
}

proof fn lemma_first_read_at(reads: Seq<Option<String>>, i: int)
    requires
        0 <= i < reads.len(),
        forall|k: int| 0 <= k < i ==> reads[k] is None,
        reads[i] is Some,
    ensures
        spec_first_read(reads) == i,
    decreases i,
{
    if i == 0 {
    } else {
        lemma_first_read_at(reads.drop_first(), i - 1);
    }
}

impl Loader {
    /// A loader over the given ordered list of directories.
    pub fn new(search_path: Vec<String>) -> (r: Loader)
        ensures
            r.search_path == search_path,
    {
        Loader { search_path }
    }

    /// The path under the directory at `idx` at which the named file
    /// would stand.
    pub fn candidate_path(&self, idx: usize, filename: &str) -> (r: String)
        requires
            idx < self.search_path@.len(),
        ensures
            r@ == self.search_path@[idx as int]@ + "/"@ + filename@,
    {
        let mut p = self.search_path[idx].clone();
        p.append("/");
        p.append(filename);
        p
    }

    /// Every path at which the named file will be looked for, in the
    /// order the directories are tried.
    pub fn candidate_paths(&self, filename: &str) -> (r: Vec<String>)
        ensures
            r@.len() == self.search_path@.len(),
            forall|i: int|
                0 <= i < r@.len() ==> (#[trigger] r@[i])@ == self.search_path@[i]@ + "/"@
                    + filename@,
    {
        let mut out: Vec<String> = Vec::new();
        let mut i: usize = 0;
        while i < self.search_path.len()
            invariant
                i <= self.search_path@.len(),
                out@.len() == i,
                forall|k: int|
                    0 <= k < i ==> (#[trigger] out@[k])@ == self.search_path@[k]@ + "/"@
                        + filename@,
            decreases self.search_path@.len() - i,
        {
            out.push(self.candidate_path(i, filename));
            i = i + 1;
        }
        out
    }
}

/// Pick the answer from the per-directory read outcomes, in search
/// order: the content of the first successful read; not-found only when
/// every directory failed.
pub fn select_first_read(reads: &Vec<Option<String>>) -> (r: Result<String, NotFoundError>)
    ensures
        r is Ok <==> exists|i: int| 0 <= i < reads@.len() && reads@[i] is Some,
        r is Ok ==> reads@[spec_first_read(reads@)] is Some && r.unwrap()@ == reads@[spec_first_read(
            reads@,
        )].unwrap()@,
{
    let mut i: usize = 0;
    while i < reads.len()
        invariant
            i <= reads@.len(),
            forall|k: int| 0 <= k < i ==> reads@[k] is None,
        decreases reads@.len() - i,
    {
        if let Some(content) = &reads[i] {
            proof {
                lemma_first_read_at(reads@, i as int);
            }
            return Ok(content.clone());
        }
        i = i + 1;
    }
    Err(NotFoundError)
}

} // verus!
