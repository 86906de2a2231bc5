use crate::error::Error;
use crate::filesystem::{
    copy_outcome, insert_outcome, lists_exactly, texts, lookup_outcome, move_outcome, same_setup,
    VFileSystem,
};
use crate::io::{ReadableVFile, ReadableVMetadata, VFile, WritableVFile, WritableVMetadata};
use crate::metadata::VMetadata;
use crate::path::{char_vec, dir_string, has_prefix, starts_with, PathLike, VPath, SEPARATOR};
use std::marker::PhantomData;
use vstd::prelude::*;

verus! {

/// `candidate` lies below the directory whose directory string is `prefix`,
/// and, unless `recursive`, directly below it.
pub open spec fn selects(prefix: Seq<char>, recursive: bool, candidate: Seq<char>) -> bool {
    &&& starts_with(candidate, prefix)
    &&& (recursive || !candidate.skip(prefix.len() as int).contains(SEPARATOR))
}

/// Some stored path lies strictly below the directory string `prefix`.
pub open spec fn has_descendant(keys: Set<Seq<char>>, prefix: Seq<char>) -> bool {
    exists|k: Seq<char>| keys.contains(k) && starts_with(k, prefix) && k.len() > prefix.len()
}

/// The paths of a snapshot that lie below a directory, in snapshot order.
pub struct VDirectoryIterator {
    inner: Vec<VPath>,
    next: usize,
    recursive: bool,
    path: Vec<char>,
}

impl VDirectoryIterator {
    #[verifier::type_invariant]
    spec fn inv(&self) -> bool {
        self.next <= self.inner@.len()
    }

    /// The paths to filter.
    pub closed spec fn snapshot(&self) -> Seq<VPath> {
        self.inner@
    }

    /// How many paths of the snapshot have been looked at.
    pub closed spec fn cursor(&self) -> int {
        self.next as int
    }

    /// The directory string that a yielded path starts with.
    pub closed spec fn prefix(&self) -> Seq<char> {
        self.path@
    }

    /// Whether paths deeper than one level are yielded.
    pub closed spec fn is_recursive(&self) -> bool {
        self.recursive
    }

    /// The snapshot entry at `j` is yielded.
    pub open spec fn yields(&self, j: int) -> bool {
        selects(self.prefix(), self.is_recursive(), self.snapshot()[j]@)
    }

    /// Filters `inner` down to what lies below `path`; only direct children
    /// unless `recursive`.
    pub fn create(inner: Vec<VPath>, path: VPath, recursive: bool) -> (r: VDirectoryIterator)
        ensures
            r.snapshot() == inner@,
            r.cursor() == 0,
            r.prefix() == dir_string(path@),
            r.is_recursive() == recursive,
    {
        let d = path.as_directory_string();
        VDirectoryIterator { inner, next: 0, recursive, path: char_vec(d.as_str()) }
    }

    /// The next path of the snapshot that lies below the directory, or none
    /// when the snapshot is used up.
    pub fn next(&mut self) -> (r: Option<VPath>)
        ensures
            final(self).snapshot() == old(self).snapshot(),
            final(self).prefix() == old(self).prefix(),
            final(self).is_recursive() == old(self).is_recursive(),
            old(self).cursor() <= final(self).cursor() <= final(self).snapshot().len(),
            match r {
                Some(p) => final(self).cursor() > old(self).cursor() && old(self).yields(
                    final(self).cursor() - 1,
                ) && p@ == old(self).snapshot()[final(self).cursor() - 1]@ && forall|j: int|
                    old(self).cursor() <= j < final(self).cursor() - 1 ==> !old(self).yields(j),
                None => final(self).cursor() == old(self).snapshot().len() && forall|j: int|
                    old(self).cursor() <= j < old(self).snapshot().len() ==> !old(self).yields(j),
            },
    {
        proof {
            use_type_invariant(&*self);
        }
        while self.next < self.inner.len()
            invariant
                self.inner@ == old(self).inner@,
                self.path@ == old(self).path@,
                self.recursive == old(self).recursive,
                old(self).next <= self.next <= self.inner@.len(),
                forall|j: int| old(self).next <= j < self.next ==> !old(self).yields(j),
            decreases self.inner@.len() - self.next,
        {
            let i = self.next;
            self.next = i + 1;
            if self.selects_at(i) {
                return Some(self.inner[i].clone());
            }
        }
        None
    }

    fn selects_at(&self, i: usize) -> (r: bool)
        requires
            i < self.inner@.len(),
        ensures
            r == self.yields(i as int),
    {
        let cand = char_vec(self.inner[i].as_str());
        if !has_prefix(&cand, &self.path) {
            return false;
        }
        if self.recursive {
            return true;
        }
        let mut k = self.path.len();
        while k < cand.len()
            invariant
                i < self.inner@.len(),
                cand@ == self.inner@[i as int]@,
                starts_with(cand@, self.path@),
                !self.recursive,
                self.path@.len() <= k <= cand@.len(),
                forall|j: int| self.path@.len() <= j < k ==> cand@[j] != SEPARATOR,
            decreases cand@.len() - k,
        {
            if cand[k] == SEPARATOR {
                proof {
                    let rest = cand@.skip(self.path@.len() as int);
                    assert(rest[k - self.path@.len()] == SEPARATOR);
                    assert(rest.contains(SEPARATOR));
                    assert(cand@ == self.inner@[i as int]@);
                }
                return false;
            }
            k = k + 1;
        }
        proof {
            let rest = cand@.skip(self.path@.len() as int);
            assert forall|j: int| 0 <= j < rest.len() implies rest[j] != SEPARATOR by {
                assert(rest[j] == cand@[j + self.path@.len()]);
            }
        }
        true
    }
}

/// What a container can do with the files it reaches: the primitives of a
/// backend and the operations derived from them, each on a path that the
/// container resolves into a backend path.
pub trait VFileContainer<M: VMetadata, F: VFileSystem<M>>: Sized + Send + Sync {
    /// The backend that operations reach.
    spec fn backend(&self) -> F;

    /// The path under which relative paths are resolved.
    spec fn scope(&self) -> Seq<char>;

    /// The backend path that `path` stands for.
    spec fn resolve(&self, path: Seq<char>) -> Seq<char>;

    /// The path under which relative paths are resolved.
    fn dir_root(&self) -> (r: VPath)
        ensures
            r@ == self.scope(),
    ;

    /// A read view of the file at `path`, cursor at the start.
    fn file_read(&self, path: &VPath) -> (r: Result<ReadableVFile<M>, Error>)
        ensures
            lookup_outcome(
                &r,
                self.backend().entries().contains_key(self.resolve(path@)),
                self.backend().fallible(),
            ),
            r is Ok ==> r->Ok_0.meta() == self.backend().entries()[self.resolve(path@)].0
                && r->Ok_0.bytes() == self.backend().entries()[self.resolve(path@)].1
                && r->Ok_0.pos() == 0,
    ;

    /// A write view of the file at `path`, over a copy of its bytes and
    /// metadata, cursor at the start.
    fn file_write(&mut self, path: &VPath) -> (r: Result<WritableVFile<'_, M, F>, Error>)
        ensures
            lookup_outcome(
                &r,
                old(self).backend().entries().contains_key(old(self).resolve(path@)),
                old(self).backend().fallible(),
            ),
            match r {
                Ok(w) => *w.writable_metadata.filesystem == old(self).backend()
                    && *final(w.writable_metadata.filesystem) == final(self).backend()
                    && w.writable_metadata.path@ == old(self).resolve(path@)
                    && w.writable_metadata.metadata == old(self).backend().entries()[old(self).resolve(path@)].0 && w.buffer@ == old(self).backend().entries()[old(self).resolve(path@)].1 && w.position == 0,
                Err(_) => final(self).backend() == old(self).backend() && final(self).scope() == old(
                    self,
                ).scope(),
            },
    ;

    /// Stores an empty file with default metadata at `path`, then opens it
    /// for writing.
    fn file_create(&mut self, path: &VPath) -> (r: Result<WritableVFile<'_, M, F>, Error>)
        ensures
            match r {
                Ok(w) => w.writable_metadata.filesystem.entries() == old(self).backend().entries().insert(
                    old(self).resolve(path@),
                    (w.writable_metadata.metadata, Seq::<u8>::empty()),
                ) && same_setup(old(self).backend(), *w.writable_metadata.filesystem)
                    && *final(w.writable_metadata.filesystem) == final(self).backend()
                    && w.writable_metadata.path@ == old(self).resolve(path@)
                    && M::default.ensures((), w.writable_metadata.metadata) && w.buffer@
                    == Seq::<u8>::empty() && w.position == 0,
                Err(e) => e is IoError && old(self).backend().fallible() && same_setup(
                    old(self).backend(),
                    final(self).backend(),
                ) && final(self).scope() == old(self).scope(),
            },
    ;

    /// Stores `new_file` at `path`, returning the file it replaces.
    fn file_replace(&mut self, path: &VPath, new_file: VFile<M>) -> (r: Result<
        Option<VFile<M>>,
        Error,
    >)
        ensures
            final(self).scope() == old(self).scope(),
            same_setup(old(self).backend(), final(self).backend()),
            insert_outcome(
                old(self).backend().entries(),
                final(self).backend().entries(),
                old(self).backend().fallible(),
                old(self).resolve(path@),
                new_file@,
                r,
            ),
    ;

    /// Moves the file at `path` to `new_path`, returning the file it replaces.
    fn file_move(&mut self, path: &VPath, new_path: &VPath) -> (r: Result<Option<VFile<M>>, Error>)
        ensures
            final(self).scope() == old(self).scope(),
            same_setup(old(self).backend(), final(self).backend()),
            move_outcome(
                old(self).backend().entries(),
                final(self).backend().entries(),
                old(self).backend().fallible(),
                old(self).resolve(path@),
                old(self).resolve(new_path@),
                r,
            ),
    ;

    /// Stores at `copy_to` the file at `path`, sharing its bytes, and returns
    /// the file it replaces.
    fn file_copy(&mut self, path: &VPath, copy_to: &VPath) -> (r: Result<Option<VFile<M>>, Error>)
        ensures
            final(self).scope() == old(self).scope(),
            same_setup(old(self).backend(), final(self).backend()),
            copy_outcome(
                old(self).backend().entries(),
                final(self).backend().entries(),
                old(self).backend().fallible(),
                old(self).resolve(path@),
                old(self).resolve(copy_to@),
                r,
            ),
    ;

    /// Takes the file at `path` out of the backend.
    fn file_remove(&mut self, path: &VPath) -> (r: Result<VFile<M>, Error>)
        ensures
            final(self).scope() == old(self).scope(),
            same_setup(old(self).backend(), final(self).backend()),
            lookup_outcome(
                &r,
                old(self).backend().entries().contains_key(old(self).resolve(path@)),
                old(self).backend().fallible(),
            ),
            match r {
                Ok(f) => f@ == old(self).backend().entries()[old(self).resolve(path@)]
                    && final(self).backend().entries() == old(self).backend().entries().remove(
                    old(self).resolve(path@),
                ),
                Err(_) => final(self).backend().entries() == old(self).backend().entries(),
            },
    ;

    /// Whether a file is stored at `path`.
    fn file_exists(&self, path: &VPath) -> (r: Result<bool, Error>)
        ensures
            match r {
                Ok(b) => b == self.backend().entries().contains_key(self.resolve(path@)),
                Err(e) => e is IoError && self.backend().fallible(),
            },
    ;

    /// Whether some stored path lies strictly below `path`.
    fn dir_exists(&self, path: &VPath) -> (r: Result<bool, Error>)
        ensures
            match r {
                Ok(b) => b == has_descendant(
                    self.backend().entries().dom(),
                    dir_string(self.resolve(path@)),
                ),
                Err(e) => e is IoError && self.backend().fallible(),
            },
    ;

    /// The metadata of the file at `path`.
    fn meta_read(&self, path: &VPath) -> (r: Result<ReadableVMetadata<M>, Error>)
        ensures
            lookup_outcome(
                &r,
                self.backend().entries().contains_key(self.resolve(path@)),
                self.backend().fallible(),
            ),
            r is Ok ==> r->Ok_0@ == self.backend().entries()[self.resolve(path@)].0,
    ;

    /// Write access to a copy of the metadata of the file at `path`.
    fn meta_write(&mut self, path: &VPath) -> (r: Result<WritableVMetadata<'_, M, F>, Error>)
        ensures
            lookup_outcome(
                &r,
                old(self).backend().entries().contains_key(old(self).resolve(path@)),
                old(self).backend().fallible(),
            ),
            match r {
                Ok(w) => *w.filesystem == old(self).backend() && *final(w.filesystem) == final(self).backend() && w.path@ == old(self).resolve(path@) && w.metadata == old(self).backend().entries()[old(self).resolve(path@)].0,
                Err(_) => final(self).backend() == old(self).backend() && final(self).scope() == old(
                    self,
                ).scope(),
            },
    ;

    /// The stored paths that lie below `path`, all of them when `recursive`,
    /// else only its direct children, from a snapshot taken now.
    fn dir_iter(&self, path: &VPath, recursive: bool) -> (r: Result<VDirectoryIterator, Error>)
        ensures
            match r {
                Ok(it) => lists_exactly(it.snapshot(), self.backend().entries().dom()) && texts(
                    it.snapshot(),
                ) == self.backend().listing()
                    && it.cursor() == 0 && it.prefix() == dir_string(self.resolve(path@))
                    && it.is_recursive() == recursive,
                Err(e) => e is IoError && self.backend().fallible(),
            },
    ;

    /// A directory rooted at `path`, over the same backend.
    fn dir_open(&mut self, path: &VPath) -> (r: VDirectory<'_, M, F>)
        ensures
            *r.filesystem == old(self).backend(),
            *final(r.filesystem) == final(self).backend(),
            r.path@ == old(self).resolve(path@),
    ;
}

/// Scoping: a directory rooted at `R` works on the backend it wraps, and
/// resolves each relative path `rel` to the backend path `R` joined with
/// `rel`, which the backend itself resolves to that same path. Every
/// operation of a container is stated over its backend and resolved paths, so
/// the directory's operation on `rel` is the backend's on `R` joined with
/// `rel`.
pub proof fn lemma_scoping<'a, M: VMetadata, F: VFileSystem<M>>(dir: VDirectory<'a, M, F>, rel: Seq<char>)
    ensures
        dir.backend() == *old(dir.filesystem),
        dir.scope() == dir.path@,
        dir.resolve(rel) == dir.path@ + rel,
        (*old(dir.filesystem)).resolve(dir.resolve(rel)) == dir.resolve(rel),
        (*old(dir.filesystem)).backend() == dir.backend(),
{
}

/// A view of a backend scoped to a directory: each operation on a relative
/// path is the backend's operation on the directory's path joined with it.
/// The fields are public because contracts speak of the final value of the
/// backend reference, which only a field, not a spec function, can name.
pub struct VDirectory<'a, M: VMetadata, F: VFileSystem<M>> {
    pub filesystem: &'a mut F,
    pub path: VPath,
    pub marker: PhantomData<M>,
}

impl<'a, M: VMetadata, F: VFileSystem<M>> VDirectory<'a, M, F> {
    /// The directory rooted at `path` on `filesystem`.
    pub fn create(filesystem: &'a mut F, path: VPath) -> (r: VDirectory<'a, M, F>)
        ensures
            *r.filesystem == *old(filesystem),
            *final(r.filesystem) == *final(filesystem),
            r.path@ == path@,
    {
        VDirectory { filesystem, path, marker: PhantomData }
    }

    fn resolved(&self, path: &VPath) -> (r: VPath)
        ensures
            r@ == self.path@ + path@,
    {
        self.path.join(path.as_str())
    }
}

impl<'a, M: VMetadata, F: VFileSystem<M>> VFileContainer<M, F> for VDirectory<'a, M, F> {
    open spec fn backend(&self) -> F {
        *self.filesystem
    }

    open spec fn scope(&self) -> Seq<char> {
        self.path@
    }

    open spec fn resolve(&self, path: Seq<char>) -> Seq<char> {
        self.path@ + path
    }

    fn dir_root(&self) -> (r: VPath) {
        self.path.clone()
    }

    fn file_read(&self, path: &VPath) -> (r: Result<ReadableVFile<M>, Error>) {
        let target = self.resolved(path);
        self.filesystem.file_read(&target)
    }

    fn file_write(&mut self, path: &VPath) -> (r: Result<WritableVFile<'_, M, F>, Error>)
        ensures
            *final(final(self).filesystem) == *final(old(self).filesystem),
            final(self).path == old(self).path,
    {
        let target = self.resolved(path);
        self.filesystem.file_write(&target)
    }

    fn file_create(&mut self, path: &VPath) -> (r: Result<WritableVFile<'_, M, F>, Error>)
        ensures
            *final(final(self).filesystem) == *final(old(self).filesystem),
            final(self).path == old(self).path,
    {
        let target = self.resolved(path);
        self.filesystem.file_create(&target)
    }

    fn file_replace(&mut self, path: &VPath, new_file: VFile<M>) -> (r: Result<
        Option<VFile<M>>,
        Error,
    >)
        ensures
            *final(final(self).filesystem) == *final(old(self).filesystem),
            final(self).path == old(self).path,
    {
        let target = self.resolved(path);
        self.filesystem.file_replace(&target, new_file)
    }

    fn file_move(&mut self, path: &VPath, new_path: &VPath) -> (r: Result<Option<VFile<M>>, Error>)
        ensures
            *final(final(self).filesystem) == *final(old(self).filesystem),
            final(self).path == old(self).path,
    {
        let from = self.resolved(path);
        let to = self.resolved(new_path);
        self.filesystem.file_move(&from, &to)
    }

    fn file_copy(&mut self, path: &VPath, copy_to: &VPath) -> (r: Result<Option<VFile<M>>, Error>)
        ensures
            *final(final(self).filesystem) == *final(old(self).filesystem),
            final(self).path == old(self).path,
    {
        let from = self.resolved(path);
        let to = self.resolved(copy_to);
        self.filesystem.file_copy(&from, &to)
    }

    fn file_remove(&mut self, path: &VPath) -> (r: Result<VFile<M>, Error>)
        ensures
            *final(final(self).filesystem) == *final(old(self).filesystem),
            final(self).path == old(self).path,
    {
        let target = self.resolved(path);
        self.filesystem.file_remove(&target)
    }

    fn file_exists(&self, path: &VPath) -> (r: Result<bool, Error>) {
        let target = self.resolved(path);
        self.filesystem.file_exists(&target)
    }

    fn dir_exists(&self, path: &VPath) -> (r: Result<bool, Error>) {
        let target = self.resolved(path);
        self.filesystem.dir_exists(&target)
    }

    fn meta_read(&self, path: &VPath) -> (r: Result<ReadableVMetadata<M>, Error>) {
        let target = self.resolved(path);
        self.filesystem.meta_read(&target)
    }

    fn meta_write(&mut self, path: &VPath) -> (r: Result<WritableVMetadata<'_, M, F>, Error>)
        ensures
            *final(final(self).filesystem) == *final(old(self).filesystem),
            final(self).path == old(self).path,
    {
        let target = self.resolved(path);
        self.filesystem.meta_write(&target)
    }

    fn dir_iter(&self, path: &VPath, recursive: bool) -> (r: Result<VDirectoryIterator, Error>) {
        let target = self.resolved(path);
        self.filesystem.dir_iter(&target, recursive)
    }

    fn dir_open(&mut self, path: &VPath) -> (r: VDirectory<'_, M, F>)
        ensures
            *final(final(self).filesystem) == *final(old(self).filesystem),
            final(self).path == old(self).path,
    {
        let target = self.resolved(path);
        VDirectory::create(&mut *self.filesystem, target)
    }
}

} // verus!
