//! The output tree: the set of generated files, as a verified map from
//! output path to file content.
//!
//! The build orchestrator is the only writer of this tree; the file
//! resolver only reads it. The tree is modelled as a map from a path's
//! segments to the text written there; the implementation keeps a
//! last-write-wins journal of the writes and removals applied.

use vstd::prelude::*;

use crate::paths::SitePath;

verus! {

/// One recorded change to the output tree.
enum TreeOp {
    /// A file written (created or overwritten) at a path.
    Put(SitePath, String),
    /// A file removed from a path.
    Del(SitePath),
}

/// The map described by a journal of changes, applied first to last.
spec fn ops_map(ops: Seq<TreeOp>) -> Map<Seq<Seq<char>>, Seq<char>>
    decreases ops.len(),
{
    if ops.len() == 0 {
        Map::empty()
    } else {
        let m = ops_map(ops.drop_last());
        match ops.last() {
            TreeOp::Put(p, c) => m.insert(p@, c@),
            TreeOp::Del(p) => m.remove(p@),
        }
    }
}

/// The generated files, addressed by output path.
pub struct OutputTree {
    ops: Vec<TreeOp>,
}

impl View for OutputTree {
    type V = Map<Seq<Seq<char>>, Seq<char>>;

    closed spec fn view(&self) -> Map<Seq<Seq<char>>, Seq<char>> {
        ops_map(self.ops@)
    }
}

impl OutputTree {
    /// An output tree with no files.
    pub fn new() -> (r: OutputTree)
        ensures
            r@ == Map::<Seq<Seq<char>>, Seq<char>>::empty(),
    {
        OutputTree { ops: Vec::new() }
    }

    /// Removes every file: the tree of a fresh full build starts empty.
    pub fn clear(&mut self)
        ensures
            final(self)@ == Map::<Seq<Seq<char>>, Seq<char>>::empty(),
    {
        self.ops.clear();
    }

    /// Writes `content` at `path`, replacing any file already there.
    pub fn write(&mut self, path: SitePath, content: String)
        ensures
            final(self)@ == old(self)@.insert(path@, content@),
    {
        self.ops.push(TreeOp::Put(path, content));
        proof {
            assert(self.ops@.drop_last() =~= old(self).ops@);
        }
    }

    /// Removes the file at `path`; removing an absent file changes
    /// nothing, so removal is idempotent.
    pub fn remove(&mut self, path: &SitePath)
        ensures
            final(self)@ == old(self)@.remove(path@),
    {
        self.ops.push(TreeOp::Del(path.clone()));
        proof {
            assert(self.ops@.drop_last() =~= old(self).ops@);
        }
    }

    /// The content of the file at `path`, if one is there.
    pub fn get(&self, path: &SitePath) -> (r: Option<&String>)
        ensures
            r matches Some(c) ==> self@.contains_key(path@) && self@[path@] == c@,
            r is None ==> !self@.contains_key(path@),
    {
        let mut i: usize = self.ops.len();
        proof {
            assert(self.ops@.take(i as int) =~= self.ops@);
        }
        while i > 0
            invariant
                i <= self.ops.len(),
                self@.contains_key(path@) == ops_map(self.ops@.take(i as int)).contains_key(
                    path@,
                ),
                self@.contains_key(path@) ==> ops_map(self.ops@.take(i as int))[path@]
                    == self@[path@],
            decreases i,
        {
            i -= 1;
            proof {
                assert(self.ops@.take(i + 1).drop_last() =~= self.ops@.take(i as int));
                assert(self.ops@.take(i + 1).last() == self.ops@[i as int]);
            }
            match &self.ops[i] {
                TreeOp::Put(q, c) => {
                    if q.same_as(path) {
                        return Some(c);
                    }
                },
                TreeOp::Del(q) => {
                    if q.same_as(path) {
                        return None;
                    }
                },
            }
        }
        proof {
            assert(self.ops@.take(0) =~= Seq::<TreeOp>::empty());
        }
        None
    }

    /// Whether a file is present at `path`.
    pub fn contains(&self, path: &SitePath) -> (r: bool)
        ensures
            r == self@.contains_key(path@),
    {
        match self.get(path) {
            Some(_) => true,
            None => false,
        }
    }

    /// Moves the file at `from` to `to`. Nothing changes, and the move
    /// is reported as failed, when no file is at `from`.
    pub fn rename(&mut self, from: &SitePath, to: &SitePath) -> (renamed: bool)
        ensures
            old(self)@.contains_key(from@) ==> renamed && final(self)@ == old(self)@.remove(
                from@,
            ).insert(to@, old(self)@[from@]),
            !old(self)@.contains_key(from@) ==> !renamed && final(self)@ == old(self)@,
    {
        let moved: Option<String> = match self.get(from) {
            Some(c) => Some(c.clone()),
            None => None,
        };
        match moved {
            Some(c) => {
                self.remove(from);
                self.write(to.clone(), c);
                true
            },
            None => false,
        }
    }
}

} // verus!
