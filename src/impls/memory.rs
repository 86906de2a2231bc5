use crate::error::Error;
use crate::filesystem::{lists_exactly, previous, texts, Entries, VFileSystem};
use crate::io::VFile;
use crate::metadata::VMetadata;
use crate::path::VPath;
use std::sync::Arc;
use vstd::prelude::*;

verus! {

/// The files that a list of pairs describes; a later pair replaces an
/// earlier one with the same path.
pub open spec fn entries_of<M: VMetadata>(pairs: Seq<(VPath, VFile<M>)>) -> Entries<M>
    decreases pairs.len(),
{
    if pairs.len() == 0 {
        Map::empty()
    } else {
        entries_of(pairs.drop_last()).insert(pairs.last().0@, pairs.last().1@)
    }
}

/// Each path is listed at most once, and `model` maps exactly the listed
/// paths to their files.
spec fn table_wf<M: VMetadata>(items: Seq<(VPath, VFile<M>)>, model: Entries<M>) -> bool {
    &&& forall|i: int, j: int|
        0 <= i < j < items.len() ==> #[trigger] items[i].0@ != #[trigger] items[j].0@
    &&& forall|i: int|
        0 <= i < items.len() ==> model.contains_key(#[trigger] items[i].0@) && model[items[i].0@]
            == items[i].1@
    &&& forall|k: Seq<char>| #[trigger]
        model.contains_key(k) ==> exists|i: int| 0 <= i < items.len() && #[trigger] items[i].0@ == k
}

/// Files kept in order of first insertion, each path at most once, with the
/// map they stand for. A `Vec` stands in for a `HashMap` keyed by path: vstd
/// specifies `HashMap` only for key types that obey its key model, which it
/// grants to integer keys, and nothing can grant it to `VPath` without an
/// assumption. Lookups are therefore a linear scan.
struct EntryTable<M: VMetadata> {
    items: Vec<(VPath, VFile<M>)>,
    model: Ghost<Entries<M>>,
}

impl<M: VMetadata> EntryTable<M> {
    #[verifier::type_invariant]
    spec fn wf(&self) -> bool {
        table_wf(self.items@, self.model@)
    }

    fn empty() -> (r: EntryTable<M>)
        ensures
            r.model@ == Map::<Seq<char>, (M, Seq<u8>)>::empty(),
    {
        EntryTable { items: Vec::new(), model: Ghost(Map::empty()) }
    }

    /// Where `path` is kept.
    fn find(&self, path: &VPath) -> (r: Option<usize>)
        ensures
            match r {
                Some(i) => i < self.items@.len() && self.items@[i as int].0@ == path@
                    && self.model@.contains_key(path@) && self.model@[path@] == self.items@[i as int].1@,
                None => !self.model@.contains_key(path@),
            },
    {
        proof {
            use_type_invariant(self);
        }
        let mut i: usize = 0;
        while i < self.items.len()
            invariant
                self.wf(),
                i <= self.items@.len(),
                forall|j: int| 0 <= j < i ==> #[trigger] self.items@[j].0@ != path@,
            decreases self.items@.len() - i,
        {
            if self.items[i].0 == *path {
                return Some(i);
            }
            i = i + 1;
        }
        None
    }

    /// This table with `file` stored at `path`, and what it replaces.
    fn inserted(self, path: VPath, file: VFile<M>) -> (r: (EntryTable<M>, Option<VFile<M>>))
        ensures
            r.0.model@ == self.model@.insert(path@, file@),
            previous(r.1, self.model@, path@),
    {
        proof {
            use_type_invariant(&self);
        }
        let ghost key = path@;
        let ghost before = self.items@;
        let ghost new_model = self.model@.insert(key, file@);
        let found = self.find(&path);
        let EntryTable { mut items, model } = self;
        match found {
            Some(i) => {
                let replaced = items[i].1.clone();
                items.set(i, (path, file));
                proof {
                    assert forall|a: int, b: int|
                        0 <= a < b < items@.len() implies #[trigger] items@[a].0@
                        != #[trigger] items@[b].0@ by {
                        assert(before[a].0@ != before[b].0@);
                    }
                    assert forall|j: int|
                        0 <= j < items@.len() implies new_model.contains_key(#[trigger] items@[j].0@)
                        && new_model[items@[j].0@] == items@[j].1@ by {
                        if j != i {
                            assert(before[j].0@ != before[i as int].0@);
                        }
                    }
                    assert forall|k: Seq<char>| #[trigger]
                        new_model.contains_key(k) implies exists|j: int|
                            0 <= j < items@.len() && #[trigger] items@[j].0@ == k by {
                        if k != key {
                            let j = choose|j: int| 0 <= j < before.len() && #[trigger] before[j].0@ == k;
                            assert(items@[j].0@ == k);
                        } else {
                            assert(items@[i as int].0@ == k);
                        }
                    }
                }
                assert(table_wf(items@, new_model));
                (EntryTable { items, model: Ghost(new_model) }, Some(replaced))
            },
            None => {
                items.push((path, file));
                proof {
                    let n = items@.len() - 1;
                    assert forall|a: int, b: int|
                        0 <= a < b < items@.len() implies #[trigger] items@[a].0@
                        != #[trigger] items@[b].0@ by {
                        if b == n {
                            assert(model@.contains_key(before[a].0@));
                        } else {
                            assert(before[a].0@ != before[b].0@);
                        }
                    }
                    assert forall|j: int|
                        0 <= j < items@.len() implies new_model.contains_key(#[trigger] items@[j].0@)
                        && new_model[items@[j].0@] == items@[j].1@ by {
                        if j < n {
                            assert(model@.contains_key(before[j].0@));
                        }
                    }
                    assert forall|k: Seq<char>| #[trigger]
                        new_model.contains_key(k) implies exists|j: int|
                            0 <= j < items@.len() && #[trigger] items@[j].0@ == k by {
                        if k != key {
                            let j = choose|j: int| 0 <= j < before.len() && #[trigger] before[j].0@ == k;
                            assert(items@[j].0@ == k);
                        } else {
                            assert(items@[n].0@ == k);
                        }
                    }
                }
                assert(table_wf(items@, new_model));
                (EntryTable { items, model: Ghost(new_model) }, None)
            },
        }
    }

    /// This table without the file at `path`, and that file, if there is one.
    fn removed(self, path: &VPath) -> (r: (EntryTable<M>, Option<VFile<M>>))
        ensures
            match r.1 {
                Some(f) => self.model@.contains_key(path@) && f@ == self.model@[path@]
                    && r.0.model@ == self.model@.remove(path@),
                None => !self.model@.contains_key(path@) && r.0.model@ == self.model@,
            },
    {
        proof {
            use_type_invariant(&self);
        }
        match self.find(path) {
            None => (self, None),
            Some(i) => {
                let ghost before = self.items@;
                let ghost new_model = self.model@.remove(path@);
                let EntryTable { mut items, model } = self;
                let (_, file) = items.remove(i);
                proof {
                    let after = items@;
                    assert forall|j: int| 0 <= j < after.len() implies after[j] == if j < i {
                        before[j]
                    } else {
                        before[j + 1]
                    } by {}
                    assert forall|a: int, b: int|
                        0 <= a < b < after.len() implies #[trigger] after[a].0@
                        != #[trigger] after[b].0@ by {
                        let a0 = if a < i { a } else { a + 1 };
                        let b0 = if b < i { b } else { b + 1 };
                        assert(before[a0].0@ != before[b0].0@);
                    }
                    assert forall|j: int|
                        0 <= j < after.len() implies new_model.contains_key(#[trigger] after[j].0@)
                        && new_model[after[j].0@] == after[j].1@ by {
                        let j0 = if j < i { j } else { j + 1 };
                        assert(before[j0].0@ != before[i as int].0@);
                        assert(model@.contains_key(before[j0].0@));
                    }
                    assert forall|k: Seq<char>| #[trigger]
                        new_model.contains_key(k) implies exists|j: int|
                            0 <= j < after.len() && #[trigger] after[j].0@ == k by {
                        let j0 = choose|j: int| 0 <= j < before.len() && #[trigger] before[j].0@ == k;
                        assert(j0 != i);
                        if j0 < i {
                            assert(after[j0].0@ == k);
                        } else {
                            assert(after[j0 - 1].0@ == k);
                        }
                    }
                }
                assert(table_wf(items@, new_model));
                (EntryTable { items, model: Ghost(new_model) }, Some(file))
            },
        }
    }

    /// Every stored path, in order of first insertion.
    fn keys(&self) -> (r: Vec<VPath>)
        ensures
            lists_exactly(r@, self.model@.dom()),
            texts(r@) == self.items@.map_values(|e: (VPath, VFile<M>)| e.0@),
    {
        proof {
            use_type_invariant(self);
        }
        let mut out: Vec<VPath> = Vec::new();
        let mut i: usize = 0;
        while i < self.items.len()
            invariant
                self.wf(),
                i <= self.items@.len(),
                out@.len() == i,
                forall|j: int| 0 <= j < i ==> #[trigger] out@[j]@ == self.items@[j].0@,
            decreases self.items@.len() - i,
        {
            out.push(self.items[i].0.clone());
            i = i + 1;
        }
        proof {
            let names = texts(out@);
            assert forall|a: int, b: int|
                0 <= a < names.len() && 0 <= b < names.len() && a != b implies names[a]
                != names[b] by {
                if a < b {
                    assert(self.items@[a].0@ != self.items@[b].0@);
                } else {
                    assert(self.items@[b].0@ != self.items@[a].0@);
                }
            }
            assert forall|k: Seq<char>| names.to_set().contains(k) <==> self.model@.dom().contains(
                k,
            ) by {
                if self.model@.contains_key(k) {
                    let j = choose|j: int|
                        0 <= j < self.items@.len() && #[trigger] self.items@[j].0@ == k;
                    assert(names[j] == k);
                }
                if names.contains(k) {
                    let j = choose|j: int| 0 <= j < names.len() && names[j] == k;
                    assert(self.items@[j].0@ == k);
                }
            }
            assert(names.to_set() =~= self.model@.dom());
            assert(names =~= self.items@.map_values(|e: (VPath, VFile<M>)| e.0@));
        }
        out
    }
}

/// A backend that keeps every file in memory. Mutations take the backend
/// exclusively (`&mut self`), so each of them, a move or a copy included, is
/// atomic; reads share it (`&self`). Rust's borrow rules give what a
/// reader-writer lock around the map would, so there is none. Enumeration
/// hands out a snapshot of the paths.
pub struct MemoryFileSystem<M: VMetadata> {
    table: EntryTable<M>,
    root: VPath,
}

impl<M: VMetadata> MemoryFileSystem<M> {
    /// An empty backend whose scoping path is `root`.
    pub fn new_empty(root: VPath) -> (r: MemoryFileSystem<M>)
        ensures
            r.entries() == Map::<Seq<char>, (M, Seq<u8>)>::empty(),
            r.root_path() == root@,
    {
        MemoryFileSystem { table: EntryTable::empty(), root }
    }

    /// A backend holding the given files, whose scoping path is `root`. A
    /// later pair replaces an earlier one with the same path.
    pub fn new(root: VPath, entries: Vec<(VPath, VFile<M>)>) -> (r: MemoryFileSystem<M>)
        ensures
            r.entries() == entries_of(entries@),
            r.root_path() == root@,
    {
        let mut table = EntryTable::empty();
        let mut i: usize = 0;
        while i < entries.len()
            invariant
                i <= entries@.len(),
                table.model@ == entries_of(entries@.take(i as int)),
            decreases entries@.len() - i,
        {
            proof {
                assert(entries@.take(i + 1).drop_last() =~= entries@.take(i as int));
            }
            let path = entries[i].0.clone();
            let file = entries[i].1.clone();
            let (next, _) = table.inserted(path, file);
            table = next;
            i = i + 1;
        }
        proof {
            assert(entries@.take(i as int) =~= entries@);
        }
        MemoryFileSystem { table, root }
    }
}

impl<M: VMetadata> VFileSystem<M> for MemoryFileSystem<M> {
    closed spec fn entries(&self) -> Entries<M> {
        self.table.model@
    }

    closed spec fn listing(&self) -> Seq<Seq<char>> {
        self.table.items@.map_values(|e: (VPath, VFile<M>)| e.0@)
    }

    closed spec fn root_path(&self) -> Seq<char> {
        self.root@
    }

    open spec fn fallible(&self) -> bool {
        false
    }

    fn fs_root(&self) -> (r: VPath) {
        self.root.clone()
    }

    fn fs_iter(&self) -> (r: Result<Vec<VPath>, Error>) {
        Ok(self.table.keys())
    }

    fn fs_exists(&self, path: &VPath) -> (r: Result<bool, Error>) {
        Ok(self.table.find(path).is_some())
    }

    fn fs_insert(&mut self, path: &VPath, new_file: VFile<M>) -> (r: Result<Option<VFile<M>>, Error>) {
        let mut table = EntryTable::empty();
        core::mem::swap(&mut self.table, &mut table);
        let (table, prev) = table.inserted(path.clone(), new_file);
        self.table = table;
        Ok(prev)
    }

    fn fs_move(&mut self, path: &VPath, new_path: VPath) -> (r: Result<Option<VFile<M>>, Error>) {
        let mut table = EntryTable::empty();
        core::mem::swap(&mut self.table, &mut table);
        let (table, removed) = table.removed(path);
        match removed {
            None => {
                self.table = table;
                Err(Error::EntryNotFound)
            },
            Some(file) => {
                let (table, prev) = table.inserted(new_path, file);
                self.table = table;
                Ok(prev)
            },
        }
    }

    fn fs_remove(&mut self, path: &VPath) -> (r: Result<VFile<M>, Error>) {
        let mut table = EntryTable::empty();
        core::mem::swap(&mut self.table, &mut table);
        let (table, removed) = table.removed(path);
        self.table = table;
        match removed {
            None => Err(Error::EntryNotFound),
            Some(file) => Ok(file),
        }
    }

    fn fs_copy(&mut self, path: &VPath, copy_to: VPath) -> (r: Result<Option<VFile<M>>, Error>) {
        match self.table.find(path) {
            None => Err(Error::EntryNotFound),
            Some(i) => {
                let file = self.table.items[i].1.clone();
                let mut table = EntryTable::empty();
                core::mem::swap(&mut self.table, &mut table);
                let (table, prev) = table.inserted(copy_to, file);
                self.table = table;
                Ok(prev)
            },
        }
    }

    fn fs_contents(&self, path: &VPath) -> (r: Result<Arc<Vec<u8>>, Error>) {
        match self.table.find(path) {
            None => Err(Error::EntryNotFound),
            Some(i) => Ok(self.table.items[i].1.contents()),
        }
    }

    fn fs_meta(&self, path: &VPath) -> (r: Result<M, Error>) {
        match self.table.find(path) {
            None => Err(Error::EntryNotFound),
            Some(i) => Ok(self.table.items[i].1.metadata()),
        }
    }
}

} // verus!
