//! In-memory model of the generated project directory: a flat map from a
//! relative path to the file's bytes. The mutation pipeline is specified and
//! verified against this model; a thin unverified shell performs the same
//! operations against the real filesystem.

use vstd::prelude::*;

verus! {

/// The filesystem subtree the pipeline mutates, modelled as path -> contents.
pub struct WorkingTree {
    files: vstd::hash_map::StringHashMap<Vec<u8>>,
}

impl View for WorkingTree {
    type V = Map<Seq<char>, Seq<u8>>;

    closed spec fn view(&self) -> Map<Seq<char>, Seq<u8>> {
        Map::new(
            |p: Seq<char>| self.files@.contains_key(p),
            |p: Seq<char>| self.files@[p]@,
        )
    }
}

impl WorkingTree {
    /// An empty tree, with no files at all.
    pub fn new() -> (r: WorkingTree)
        ensures
            r@ == Map::<Seq<char>, Seq<u8>>::empty(),
    {
        let r = WorkingTree { files: vstd::hash_map::StringHashMap::new() };
        proof {
            assert(r@ =~= Map::<Seq<char>, Seq<u8>>::empty());
        }
        r
    }

    /// Whether a file exists at `path`.
    pub fn contains_path(&self, path: &str) -> (r: bool)
        ensures
            r == self@.contains_key(path@),
    {
        self.files.contains_key(path)
    }

    /// The contents of the file at `path`, if one exists.
    pub fn read_file(&self, path: &str) -> (r: Option<&Vec<u8>>)
        ensures
            match r {
                Some(c) => self@.contains_key(path@) && c@ == self@[path@],
                None => !self@.contains_key(path@),
            },
    {
        self.files.get(path)
    }

    /// Writes `content` at `path`, creating the file or replacing whatever
    /// was there.
    pub fn put_file(&mut self, path: String, content: Vec<u8>)
        ensures
            final(self)@ == old(self)@.insert(path@, content@),
    {
        let ghost p = path@;
        let ghost c = content@;
        self.files.insert(path, content);
        proof {
            assert(self@ =~= old(self)@.insert(p, c));
        }
    }

    /// Deletes the file at `path`; reports whether one was there to delete.
    pub fn remove_file(&mut self, path: &str) -> (r: bool)
        ensures
            r == old(self)@.contains_key(path@),
            final(self)@ == old(self)@.remove(path@),
    {
        let present = self.files.contains_key(path);
        self.files.remove(path);
        proof {
            assert(self@ =~= old(self)@.remove(path@));
        }
        present
    }

    /// The number of files in the tree.
    pub fn file_count(&self) -> (r: usize)
        ensures
            r == self@.len(),
    {
        proof {
            assert(self@.dom() =~= self.files@.dom());
        }
        self.files.len()
    }
}

} // verus!
