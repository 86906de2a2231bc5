use crate::directory::{VDirectory, VDirectoryIterator, VFileContainer};
use crate::error::Error;
use crate::io::{ReadableVFile, ReadableVMetadata, VFile, WritableVFile, WritableVMetadata};
use crate::metadata::VMetadata;
use crate::path::{char_vec, dir_string, has_prefix, starts_with, PathLike, VPath};
use std::sync::Arc;
use vstd::prelude::*;

verus! {

/// The files of a backend: for each stored path text, its metadata and bytes.
pub type Entries<M> = Map<Seq<char>, (M, Seq<u8>)>;

/// `prev` is what `m` held at `path` before it was replaced.
pub open spec fn previous<M: VMetadata>(prev: Option<VFile<M>>, m: Entries<M>, path: Seq<char>) -> bool {
    match prev {
        Some(f) => m.contains_key(path) && f@ == m[path],
        None => !m.contains_key(path),
    }
}

/// The outcome of a lookup at a path that is stored (`found`) or not: success
/// only when it is stored, `EntryNotFound` only when it is not, an I/O error
/// only on a backend that may have one.
pub open spec fn lookup_outcome<T>(r: &Result<T, Error>, found: bool, fallible: bool) -> bool {
    match r {
        Ok(_) => found,
        Err(Error::EntryNotFound) => !found,
        Err(Error::IoError(_)) => fallible,
    }
}

/// `after` is `before` with its root and its kind unchanged.
pub open spec fn same_setup<M: VMetadata, F: VFileSystem<M>>(before: F, after: F) -> bool {
    after.root_path() == before.root_path() && after.fallible() == before.fallible()
}

/// `m` after the file at `from` is moved to `to`.
pub open spec fn moved<M>(m: Entries<M>, from: Seq<char>, to: Seq<char>) -> Entries<M> {
    m.remove(from).insert(to, m[from])
}

/// `m` after the file at `from` is copied to `to`.
pub open spec fn copied<M>(m: Entries<M>, from: Seq<char>, to: Seq<char>) -> Entries<M> {
    m.insert(to, m[from])
}

/// Storing `file` at `path`: it replaces what was there, which is returned;
/// on an I/O error nothing changes.
pub open spec fn insert_outcome<M: VMetadata>(
    before: Entries<M>,
    after: Entries<M>,
    fallible: bool,
    path: Seq<char>,
    file: (M, Seq<u8>),
    r: Result<Option<VFile<M>>, Error>,
) -> bool {
    match r {
        Ok(prev) => after == before.insert(path, file) && previous(
            prev,
            before,
            path,
        ),
        Err(e) => e is IoError && fallible && after == before,
    }
}

/// Moving the file at `from` to `to`: what `to` held is returned; when the
/// move fails nothing changes.
pub open spec fn move_outcome<M: VMetadata>(
    before: Entries<M>,
    after: Entries<M>,
    fallible: bool,
    from: Seq<char>,
    to: Seq<char>,
    r: Result<Option<VFile<M>>, Error>,
) -> bool {
    &&& lookup_outcome(&r, before.contains_key(from), fallible)
    &&& match r {
        Ok(prev) => after == moved(before, from, to) && previous(
            prev,
            before.remove(from),
            to,
        ),
        Err(_) => after == before,
    }
}

/// Copying the file at `from` to `to`: what `to` held is returned; when the
/// copy fails nothing changes.
pub open spec fn copy_outcome<M: VMetadata>(
    before: Entries<M>,
    after: Entries<M>,
    fallible: bool,
    from: Seq<char>,
    to: Seq<char>,
    r: Result<Option<VFile<M>>, Error>,
) -> bool {
    &&& lookup_outcome(&r, before.contains_key(from), fallible)
    &&& match r {
        Ok(prev) => after == copied(before, from, to) && previous(
            prev,
            before,
            to,
        ),
        Err(_) => after == before,
    }
}

/// On a backend without I/O errors, an operation on a path that is not
/// stored fails with `EntryNotFound`.
pub proof fn lemma_missing_path<T>(r: &Result<T, Error>)
    requires
        lookup_outcome(r, false, false),
    ensures
        r matches Err(Error::EntryNotFound),
{
}

/// Copy independence: after the file at `x` is copied to `y`, storing a new
/// file at `x` leaves `y` holding what `x` held before.
pub proof fn lemma_copy_independent<M: VMetadata>(
    before: Entries<M>,
    copied_state: Entries<M>,
    after: Entries<M>,
    fallible: bool,
    x: Seq<char>,
    y: Seq<char>,
    copy_result: Result<Option<VFile<M>>, Error>,
    new_file: (M, Seq<u8>),
    write_result: Result<Option<VFile<M>>, Error>,
)
    requires
        copy_outcome(before, copied_state, fallible, x, y, copy_result),
        copy_result is Ok,
        insert_outcome(copied_state, after, fallible, x, new_file, write_result),
        x != y,
    ensures
        after.contains_key(y),
        after[y] == before[x],
{
}

/// The texts of `paths`, in order.
pub open spec fn texts(paths: Seq<VPath>) -> Seq<Seq<char>> {
    paths.map_values(|p: VPath| p@)
}

/// `paths` names every stored path exactly once.
pub open spec fn lists_exactly(paths: Seq<VPath>, keys: Set<Seq<char>>) -> bool {
    let texts = texts(paths);
    texts.no_duplicates() && texts.to_set() == keys
}

/// The primitive operations of a storage engine.
pub trait VFileSystem<M: VMetadata>: Sized + Send + Sync {
    /// The stored files.
    spec fn entries(&self) -> Entries<M>;

    /// The default scoping path of this backend.
    spec fn root_path(&self) -> Seq<char>;

    /// The stored paths in the order that enumeration gives them.
    spec fn listing(&self) -> Seq<Seq<char>>;

    /// This backend may report I/O errors.
    spec fn fallible(&self) -> bool;

    /// The default scoping path.
    fn fs_root(&self) -> (r: VPath)
        ensures
            r@ == self.root_path(),
    ;

    /// A snapshot of every stored path.
    fn fs_iter(&self) -> (r: Result<Vec<VPath>, Error>)
        ensures
            match r {
                Ok(paths) => lists_exactly(paths@, self.entries().dom()) && texts(paths@)
                    == self.listing(),
                Err(e) => e is IoError && self.fallible(),
            },
    ;

    /// Whether a file is stored at `path`.
    fn fs_exists(&self, path: &VPath) -> (r: Result<bool, Error>)
        ensures
            match r {
                Ok(b) => b == self.entries().contains_key(path@),
                Err(e) => e is IoError && self.fallible(),
            },
    ;

    /// Stores `new_file` at `path`, returning the file it replaces.
    fn fs_insert(&mut self, path: &VPath, new_file: VFile<M>) -> (r: Result<Option<VFile<M>>, Error>)
        ensures
            final(self).root_path() == old(self).root_path(),
            final(self).fallible() == old(self).fallible(),
            insert_outcome(old(self).entries(), final(self).entries(), old(self).fallible(), path@, new_file@, r),
    ;

    /// Moves the file at `path` to `new_path`, returning the file it replaces.
    fn fs_move(&mut self, path: &VPath, new_path: VPath) -> (r: Result<Option<VFile<M>>, Error>)
        ensures
            final(self).root_path() == old(self).root_path(),
            final(self).fallible() == old(self).fallible(),
            move_outcome(old(self).entries(), final(self).entries(), old(self).fallible(), path@, new_path@, r),
    ;

    /// Takes the file at `path` out of the backend.
    fn fs_remove(&mut self, path: &VPath) -> (r: Result<VFile<M>, Error>)
        ensures
            final(self).root_path() == old(self).root_path(),
            final(self).fallible() == old(self).fallible(),
            lookup_outcome(&r, old(self).entries().contains_key(path@), old(self).fallible()),
            match r {
                Ok(f) => f@ == old(self).entries()[path@] && final(self).entries() == old(self).entries().remove(path@),
                Err(_) => final(self).entries() == old(self).entries(),
            },
    ;

    /// Stores at `copy_to` the file at `path`, sharing its bytes, and returns
    /// the file it replaces.
    fn fs_copy(&mut self, path: &VPath, copy_to: VPath) -> (r: Result<Option<VFile<M>>, Error>)
        ensures
            final(self).root_path() == old(self).root_path(),
            final(self).fallible() == old(self).fallible(),
            copy_outcome(old(self).entries(), final(self).entries(), old(self).fallible(), path@, copy_to@, r),
    ;

    /// The bytes of the file at `path`.
    fn fs_contents(&self, path: &VPath) -> (r: Result<Arc<Vec<u8>>, Error>)
        ensures
            lookup_outcome(&r, self.entries().contains_key(path@), self.fallible()),
            r is Ok ==> r->Ok_0@ == self.entries()[path@].1,
    ;

    /// The metadata of the file at `path`.
    fn fs_meta(&self, path: &VPath) -> (r: Result<M, Error>)
        ensures
            lookup_outcome(&r, self.entries().contains_key(path@), self.fallible()),
            r is Ok ==> r->Ok_0 == self.entries()[path@].0,
    ;
}

/// Every backend is a container of its own files: paths are used as given.
impl<M: VMetadata, F: VFileSystem<M>> VFileContainer<M, F> for F {
    open spec fn backend(&self) -> F {
        *self
    }

    open spec fn scope(&self) -> Seq<char> {
        self.root_path()
    }

    open spec fn resolve(&self, path: Seq<char>) -> Seq<char> {
        path
    }

    fn dir_root(&self) -> (r: VPath) {
        self.fs_root()
    }

    fn file_read(&self, path: &VPath) -> (r: Result<ReadableVFile<M>, Error>) {
        let contents = match self.fs_contents(path) {
            Ok(c) => c,
            Err(e) => return Err(e),
        };
        let metadata = match self.fs_meta(path) {
            Ok(m) => m,
            Err(e) => return Err(e),
        };
        Ok(ReadableVFile::with(ReadableVMetadata::with(metadata), contents, 0))
    }

    fn file_write(&mut self, path: &VPath) -> (r: Result<WritableVFile<'_, M, F>, Error>) {
        let contents = match self.fs_contents(path) {
            Ok(c) => c,
            Err(e) => return Err(e),
        };
        let metadata = match self.fs_meta(path) {
            Ok(m) => m,
            Err(e) => return Err(e),
        };
        let bytes = copy_bytes(&contents);
        Ok(WritableVFile::with(WritableVMetadata::with(self, path.clone(), metadata), bytes))
    }

    fn file_create(&mut self, path: &VPath) -> (r: Result<WritableVFile<'_, M, F>, Error>) {
        let metadata = M::default();
        match self.fs_insert(path, VFile::create_empty(metadata)) {
            Ok(_) => {},
            Err(e) => return Err(e),
        }
        self.file_write(path)
    }

    fn file_replace(&mut self, path: &VPath, new_file: VFile<M>) -> (r: Result<
        Option<VFile<M>>,
        Error,
    >) {
        self.fs_insert(path, new_file)
    }

    fn file_move(&mut self, path: &VPath, new_path: &VPath) -> (r: Result<Option<VFile<M>>, Error>) {
        self.fs_move(path, new_path.clone())
    }

    fn file_copy(&mut self, path: &VPath, copy_to: &VPath) -> (r: Result<Option<VFile<M>>, Error>) {
        self.fs_copy(path, copy_to.clone())
    }

    fn file_remove(&mut self, path: &VPath) -> (r: Result<VFile<M>, Error>) {
        self.fs_remove(path)
    }

    fn file_exists(&self, path: &VPath) -> (r: Result<bool, Error>) {
        self.fs_exists(path)
    }

    fn dir_exists(&self, path: &VPath) -> (r: Result<bool, Error>) {
        let paths = match self.fs_iter() {
            Ok(p) => p,
            Err(e) => return Err(e),
        };
        let prefix = char_vec(path.as_directory_string().as_str());
        let ghost names = texts(paths@);
        let mut i: usize = 0;
        while i < paths.len()
            invariant
                i <= paths@.len(),
                names == texts(paths@),
                lists_exactly(paths@, self.entries().dom()),
                prefix@ == dir_string(path@),
                forall|j: int|
                    0 <= j < i ==> !(starts_with(#[trigger] names[j], prefix@) && names[j].len()
                        > prefix@.len()),
            decreases paths@.len() - i,
        {
            let cand = char_vec(paths[i].as_str());
            if cand.len() > prefix.len() && has_prefix(&cand, &prefix) {
                proof {
                    assert(names.to_set().contains(names[i as int]));
                }
                return Ok(true);
            }
            i = i + 1;
        }
        proof {
            assert forall|k: Seq<char>|
                self.entries().dom().contains(k) implies !(starts_with(k, prefix@) && k.len()
                > prefix@.len()) by {
                assert(names.to_set().contains(k));
                let j = choose|j: int| 0 <= j < names.len() && names[j] == k;
                assert(starts_with(names[j], prefix@) ==> names[j].len() <= prefix@.len());
            }
        }
        Ok(false)
    }

    fn meta_read(&self, path: &VPath) -> (r: Result<ReadableVMetadata<M>, Error>) {
        match self.fs_meta(path) {
            Ok(m) => Ok(ReadableVMetadata::with(m)),
            Err(e) => Err(e),
        }
    }

    fn meta_write(&mut self, path: &VPath) -> (r: Result<WritableVMetadata<'_, M, F>, Error>) {
        let metadata = match self.fs_meta(path) {
            Ok(m) => m,
            Err(e) => return Err(e),
        };
        Ok(WritableVMetadata::with(self, path.clone(), metadata))
    }

    fn dir_iter(&self, path: &VPath, recursive: bool) -> (r: Result<VDirectoryIterator, Error>) {
        match self.fs_iter() {
            Ok(paths) => Ok(VDirectoryIterator::create(paths, path.clone(), recursive)),
            Err(e) => Err(e),
        }
    }

    fn dir_open(&mut self, path: &VPath) -> (r: VDirectory<'_, M, F>) {
        VDirectory::create(self, path.clone())
    }
}

/// A private copy of `bytes`.
fn copy_bytes(bytes: &Vec<u8>) -> (r: Vec<u8>)
    ensures
        r@ == bytes@,
{
    let mut out: Vec<u8> = Vec::new();
    let mut i: usize = 0;
    while i < bytes.len()
        invariant
            i <= bytes@.len(),
            out@ == bytes@.take(i as int),
        decreases bytes@.len() - i,
    {
        out.push(bytes[i]);
        proof {
            assert(bytes@.take(i as int).push(bytes@[i as int]) =~= bytes@.take(i + 1));
        }
        i = i + 1;
    }
    proof {
        assert(bytes@.take(i as int) =~= bytes@);
    }
    out
}

} // verus!
