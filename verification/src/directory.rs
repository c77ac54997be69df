//! The headers of a directory.

use vstd::prelude::*;
use crate::grammar::GHeaderFileItem;

verus! {

/// The headers of a directory: each path with the declarations of the file,
/// in source order.
///
/// A directory holds a path once. [`CHeaderDirectory::new`] and
/// [`CHeaderDirectory::insert`] keep it so.
#[derive(Debug, Clone, PartialEq, Eq)]
pub struct CHeaderDirectory {
    pub map: Vec<(String, Vec<GHeaderFileItem>)>,
}

impl CHeaderDirectory {
    /// No path stands twice.
    pub open spec fn wf(&self) -> bool {
        forall|i: int, j: int|
            0 <= i < j < self.map@.len() ==> (#[trigger] self.map@[i]).0@ != (
            #[trigger] self.map@[j]).0@
    }

    /// Whether the directory holds a header at `path`.
    pub open spec fn holds(&self, path: Seq<char>) -> bool {
        exists|k: int| 0 <= k < self.map@.len() && (#[trigger] self.map@[k]).0@ == path
    }

    /// Whether `k` is the first position at which `path` stands.
    pub open spec fn stands_first_at(&self, path: Seq<char>, k: int) -> bool {
        &&& 0 <= k < self.map@.len()
        &&& self.map@[k].0@ == path
        &&& forall|j: int| 0 <= j < k ==> (#[trigger] self.map@[j]).0@ != path
    }

    /// A directory without headers.
    pub fn new() -> (dir: CHeaderDirectory)
        ensures
            dir.wf(),
            dir.map@.len() == 0,
    {
        CHeaderDirectory { map: Vec::new() }
    }

    fn find(&self, path: &String) -> (res: Option<usize>)
        ensures
            match res {
                Some(k) => self.stands_first_at(path@, k as int),
                None => !self.holds(path@),
            },
    {
        let mut k: usize = 0;
        while k < self.map.len()
            invariant
                k <= self.map.len(),
                forall|j: int| 0 <= j < k ==> (#[trigger] self.map@[j]).0@ != path@,
            decreases self.map.len() - k,
        {
            if self.map[k].0 == *path {
                return Some(k);
            }
            k += 1;
        }
        None
    }

    /// Puts the header at `path` into the directory.
    ///
    /// Where the directory holds the path already, the declarations take the
    /// place of those that were there, which are returned, and the header
    /// keeps its position. Otherwise the header goes to the end. Either way
    /// a directory that held no path twice holds none twice afterwards.
    pub fn insert(&mut self, path: String, items: Vec<GHeaderFileItem>) -> (res: Option<
        Vec<GHeaderFileItem>,
    >)
        ensures
            forall|k: int|
                old(self).stands_first_at(path@, k) ==> res == Some(old(self).map@[k].1)
                    && final(self).map@ == old(self).map@.update(k, (path, items)),
            !old(self).holds(path@) ==> res is None && final(self).map@ == old(self).map@.push(
                (path, items),
            ),
            old(self).wf() ==> final(self).wf(),
    {
        match self.find(&path) {
            Some(k) => {
                let previous = self.map.remove(k);
                self.map.insert(k, (path, items));
                assert(self.map@ =~= old(self).map@.update(k as int, (path, items)));
                Some(previous.1)
            },
            None => {
                self.map.push((path, items));
                None
            },
        }
    }
}

} // verus!
