//! A small model of the filesystem records a move touches, for stating the
//! fallback policy: a move tries an atomic rename first and, where that
//! mechanism is unavailable, falls back to a copy followed by a removal of
//! the source. Both routes must leave the same end state: source absent,
//! destination present with the original content.

use vstd::prelude::*;
use vstd::string::StrSliceExecFns;
use vstd::string::StringExecFns;
use crate::text::str_eq;

verus! {

/// One record: a path and what stands for its content.
pub struct ModelFile {
    pub path: String,
    pub data: u64,
}

/// The records, each path held once.
pub struct ModelFs {
    pub files: Vec<ModelFile>,
}

/// The first record with the given path, if any.
pub open spec fn find_path_from(files: Seq<ModelFile>, p: Seq<char>, i: int) -> Option<int>
    decreases files.len() - i,
{
    if i < 0 || i >= files.len() {
        None
    } else if files[i].path@ == p {
        Some(i)
    } else {
        find_path_from(files, p, i + 1)
    }
}

pub open spec fn find_path(files: Seq<ModelFile>, p: Seq<char>) -> Option<int> {
    find_path_from(files, p, 0)
}

impl ModelFs {
    /// Each path is held by at most one record.
    pub open spec fn wf(self) -> bool {
        forall|i: int, j: int|
            0 <= i < j < self.files@.len() ==> self.files@[i].path@ != self.files@[j].path@
    }

    fn index_of(&self, p: &str) -> (r: Option<usize>)
        ensures
            match r {
                Some(i) => i < self.files@.len() && find_path(self.files@, p@) == Some(i as int),
                None => find_path(self.files@, p@) is None,
            },
    {
        let n = self.files.len();
        let mut i: usize = 0;
        loop
            invariant
                0 <= i <= n,
                n == self.files@.len(),
                find_path(self.files@, p@) == find_path_from(self.files@, p@, i as int),
            decreases n - i,
        {
            if i == n {
                return None;
            }
            if str_eq(self.files[i].path.as_str(), p) {
                return Some(i);
            }
            i = i + 1;
        }
    }

    /// Whether a record with the path is present.
    pub fn contains_path(&self, p: &str) -> (r: bool)
        ensures
            r == (find_path(self.files@, p@) is Some),
    {
        match self.index_of(p) {
            Some(_) => true,
            None => false,
        }
    }

    /// The content recorded under the path, if any.
    pub fn read(&self, p: &str) -> (r: Option<u64>)
        ensures
            match find_path(self.files@, p@) {
                Some(i) => r == Some(self.files@[i].data),
                None => r is None,
            },
    {
        match self.index_of(p) {
            Some(i) => Some(self.files[i].data),
            None => None,
        }
    }

    /// Moves the record under `src` to `dest`. When `rename_supported` the
    /// move is one atomic rename; otherwise it is a copy to `dest` followed
    /// by a removal of `src`. The contract does not depend on which route
    /// ran: the end state of the fallback equals that of the atomic rename —
    /// source absent, destination present with the original content.
    pub fn move_entry(&mut self, src: &str, dest: &str, rename_supported: bool)
        requires
            old(self).wf(),
            find_path(old(self).files@, src@) is Some,
            find_path(old(self).files@, dest@) is None,
        ensures
            final(self).wf(),
            ({
                let si = find_path(old(self).files@, src@)->0;
                &&& final(self).files@.len() == old(self).files@.len()
                &&& final(self).files@.drop_last() == old(self).files@.remove(si)
                &&& final(self).files@.last().path@ == dest@
                &&& final(self).files@.last().data == old(self).files@[si].data
            }),
    {
        let ghost pre = self.files@;
        let si = match self.index_of(src) {
            Some(i) => i,
            None => {
                return ;
            },
        };
        if rename_supported {
            let moved = self.files.remove(si);
            self.files.push(ModelFile { path: String::from_str(dest), data: moved.data });
        } else {
            let data = self.files[si].data;
            self.files.push(ModelFile { path: String::from_str(dest), data });
            let removed = self.files.remove(si);
            proof {
                assert(self.files@ =~= pre.remove(si as int).push(
                    ModelFile { path: self.files@.last().path, data: pre[si as int].data },
                ));
            }
        }
        proof {
            assert(final(self).files@.drop_last() =~= pre.remove(
                find_path(pre, src@)->0,
            ));
            let post = self.files@;
            let si2 = find_path(pre, src@)->0;
            assert forall|i: int, j: int|
                0 <= i < j < post.len() implies post[i].path@ != post[j].path@ by {
                Self::lemma_find_path_some(pre, src@);
                if j < post.len() - 1 {
                    Self::lemma_remove_keeps_distinct(pre, si2, i, j);
                } else {
                    Self::lemma_remove_absent(pre, dest@, si2, i);
                }
            }
        }
    }

    proof fn lemma_find_path_some(files: Seq<ModelFile>, p: Seq<char>)
        requires
            find_path(files, p) is Some,
        ensures
            0 <= find_path(files, p)->0 < files.len(),
            files[find_path(files, p)->0].path@ == p,
    {
        Self::lemma_find_path_from(files, p, 0);
    }

    proof fn lemma_find_path_from(files: Seq<ModelFile>, p: Seq<char>, i: int)
        requires
            0 <= i <= files.len(),
            find_path_from(files, p, i) is Some,
        ensures
            i <= find_path_from(files, p, i)->0 < files.len(),
            files[find_path_from(files, p, i)->0].path@ == p,
        decreases files.len() - i,
    {
        if i < files.len() && files[i].path@ != p {
            Self::lemma_find_path_from(files, p, i + 1);
        }
    }

    proof fn lemma_remove_keeps_distinct(files: Seq<ModelFile>, k: int, i: int, j: int)
        requires
            0 <= k < files.len(),
            0 <= i < j < files.len() - 1,
            forall|a: int, b: int|
                0 <= a < b < files.len() ==> files[a].path@ != files[b].path@,
        ensures
            files.remove(k)[i].path@ != files.remove(k)[j].path@,
    {
    }

    /// No record of the shortened sequence carries a path absent from the
    /// original.
    proof fn lemma_remove_absent(files: Seq<ModelFile>, p: Seq<char>, k: int, i: int)
        requires
            0 <= k < files.len(),
            0 <= i < files.len() - 1,
            find_path(files, p) is None,
        ensures
            files.remove(k)[i].path@ != p,
    {
        Self::lemma_find_path_none(files, p, 0);
    }

    proof fn lemma_find_path_none(files: Seq<ModelFile>, p: Seq<char>, i: int)
        requires
            0 <= i <= files.len(),
            find_path_from(files, p, i) is None,
        ensures
            forall|j: int| i <= j < files.len() ==> files[j].path@ != p,
        decreases files.len() - i,
    {
        if i < files.len() {
            Self::lemma_find_path_none(files, p, i + 1);
        }
    }
}

} // verus!
