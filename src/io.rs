use crate::error::Error;
use crate::filesystem::{insert_outcome, lookup_outcome, previous, same_setup, Entries, VFileSystem};
use crate::metadata::VMetadata;
use crate::path::VPath;
use crate::support::{invalid_input, share};
use std::sync::Arc;
use vstd::prelude::*;

verus! {

/// A stored file: metadata and bytes. The bytes are shared between copies
/// and never change; a new value replaces a file as a whole.
pub struct VFile<M: VMetadata> {
    metadata: M,
    contents: Arc<Vec<u8>>,
}

impl<M: VMetadata> View for VFile<M> {
    type V = (M, Seq<u8>);

    closed spec fn view(&self) -> (M, Seq<u8>) {
        (self.metadata, self.contents@)
    }
}

impl<M: VMetadata> Clone for VFile<M> {
    /// A second handle on the same metadata and bytes; no byte is copied.
    fn clone(&self) -> (r: VFile<M>)
        ensures
            r@ == self@,
    {
        VFile { metadata: self.metadata, contents: share(&self.contents) }
    }
}

impl<M: VMetadata> VFile<M> {
    /// A file made of `metadata` and `contents`.
    pub fn create(metadata: M, contents: Arc<Vec<u8>>) -> (r: VFile<M>)
        ensures
            r@ == (metadata, contents@),
    {
        VFile { metadata, contents }
    }

    /// A file made of `metadata` and no bytes.
    pub fn create_empty(metadata: M) -> (r: VFile<M>)
        ensures
            r@ == (metadata, Seq::<u8>::empty()),
    {
        let contents: Vec<u8> = Vec::new();
        VFile { metadata, contents: Arc::new(contents) }
    }

    /// The metadata.
    pub fn metadata(&self) -> (r: M)
        ensures
            r == self@.0,
    {
        self.metadata
    }

    /// The bytes, shared.
    pub fn contents(&self) -> (r: Arc<Vec<u8>>)
        ensures
            r@ == self@.1,
    {
        share(&self.contents)
    }
}

/// Where a seek is measured from.
pub enum SeekFrom {
    /// An absolute offset.
    Start(u64),
    /// An offset from the end of the bytes.
    End(i64),
    /// An offset from the current position.
    Current(i64),
}

/// The position a seek asks for, before any check.
pub open spec fn seek_target(pos: SeekFrom, current: int, len: int) -> int {
    match pos {
        SeekFrom::Start(o) => o as int,
        SeekFrom::End(o) => len + o,
        SeekFrom::Current(o) => current + o,
    }
}

/// A seek target that a position can hold.
pub open spec fn valid_position(target: int) -> bool {
    0 <= target <= usize::MAX
}

/// How many bytes a read of `want` bytes at `pos` delivers from `len` bytes.
pub open spec fn read_amount(len: int, pos: int, want: int) -> int {
    if pos >= len {
        0
    } else if want < len - pos {
        want
    } else {
        len - pos
    }
}

/// `after` is `before` with its first `amt` bytes replaced by the bytes of
/// `src` from `pos` on.
pub open spec fn filled(before: Seq<u8>, after: Seq<u8>, src: Seq<u8>, pos: int, amt: int) -> bool {
    &&& after.len() == before.len()
    &&& forall|k: int| 0 <= k < amt ==> #[trigger] after[k] == src[pos + k]
    &&& forall|k: int| amt <= k < before.len() ==> #[trigger] after[k] == before[k]
}

/// `buf` after `data` is written at `pos`: zeros fill any gap up to `pos`,
/// `data` overwrites or extends what is there, and the rest is kept.
pub open spec fn write_at(buf: Seq<u8>, pos: int, data: Seq<u8>) -> Seq<u8> {
    let padded = if pos <= buf.len() {
        buf
    } else {
        buf + Seq::new((pos - buf.len()) as nat, |i: int| 0u8)
    };
    let end = pos + data.len();
    padded.take(pos) + data + if end < padded.len() {
        padded.skip(end)
    } else {
        Seq::empty()
    }
}

/// Round trip: a file created empty at `path`, written with `data` from the
/// start of its write view, and released, gives a read view that yields
/// exactly `data` when read to the end. The states and results are those that
/// the contracts of `file_create`, `write`, `close` and `file_read` describe;
/// on any backend, once release and the read succeed.
pub proof fn lemma_round_trip<M: VMetadata>(
    created: Entries<M>,
    released: Entries<M>,
    fallible: bool,
    path: Seq<char>,
    metadata: M,
    data: Seq<u8>,
    close_result: Result<Option<VFile<M>>, Error>,
    reader: ReadableVFile<M>,
)
    requires
        created.contains_key(path),
        created[path] == (metadata, Seq::<u8>::empty()),
        insert_outcome(
            created,
            released,
            fallible,
            path,
            (metadata, write_at(Seq::empty(), 0, data)),
            close_result,
        ),
        close_result is Ok,
        reader.bytes() == released[path].1,
        reader.pos() == 0,
    ensures
        reader.unread() == data,
{
    assert(write_at(Seq::empty(), 0, data) =~= data);
    if data.len() > 0 {
        assert(reader.bytes().skip(0) =~= data);
    }
}

/// Copies up to `buf.len()` bytes of `src` from `pos` into `buf`.
fn read_into(src: &Vec<u8>, pos: usize, buf: &mut [u8]) -> (n: usize)
    ensures
        n == read_amount(src@.len() as int, pos as int, old(buf)@.len() as int),
        filled(old(buf)@, final(buf)@, src@, pos as int, n as int),
        pos + n <= usize::MAX,
{
    let len = src.len();
    let want = buf.len();
    let n: usize = if pos >= len {
        0
    } else if want < len - pos {
        want
    } else {
        len - pos
    };
    let mut k: usize = 0;
    while k < n
        invariant
            n <= buf@.len(),
            n == 0 || pos + n <= src@.len(),
            len == src@.len(),
            k <= n,
            buf@.len() == old(buf)@.len(),
            forall|j: int| 0 <= j < k ==> #[trigger] buf@[j] == src@[pos + j],
            forall|j: int| k <= j < buf@.len() ==> #[trigger] buf@[j] == old(buf)@[j],
        decreases n - k,
    {
        buf[k] = src[pos + k];
        k = k + 1;
    }
    n
}

/// The new position after a seek, or an error when it would be negative or
/// too large.
fn seek_position(pos: SeekFrom, current: usize, len: usize) -> (r: Result<usize, Error>)
    ensures
        match r {
            Ok(p) => valid_position(seek_target(pos, current as int, len as int)) && p == seek_target(
                pos,
                current as int,
                len as int,
            ),
            Err(e) => !valid_position(seek_target(pos, current as int, len as int)) && e is IoError,
        },
{
    let (base, offset): (usize, i64) = match pos {
        SeekFrom::Start(o) => {
            if o > usize::MAX as u64 {
                return Err(Error::IoError(invalid_input()));
            }
            return Ok(o as usize);
        },
        SeekFrom::End(o) => (len, o),
        SeekFrom::Current(o) => (current, o),
    };
    if offset >= 0 {
        let up = offset as u64;
        if up > (usize::MAX - base) as u64 {
            Err(Error::IoError(invalid_input()))
        } else {
            Ok(base + up as usize)
        }
    } else {
        let down = (0i128 - offset as i128) as u64;
        if down > base as u64 {
            Err(Error::IoError(invalid_input()))
        } else {
            Ok(base - down as usize)
        }
    }
}

/// Read access to a file's metadata.
pub struct ReadableVMetadata<M: VMetadata>(M);

impl<M: VMetadata> View for ReadableVMetadata<M> {
    type V = M;

    closed spec fn view(&self) -> M {
        self.0
    }
}

impl<M: VMetadata> ReadableVMetadata<M> {
    /// Wraps `metadata`.
    pub fn with(metadata: M) -> (r: ReadableVMetadata<M>)
        ensures
            r@ == metadata,
    {
        ReadableVMetadata(metadata)
    }

    /// Wraps `metadata`; the same as `with`.
    pub fn new(metadata: M) -> (r: ReadableVMetadata<M>)
        ensures
            r@ == metadata,
    {
        ReadableVMetadata(metadata)
    }

    /// The metadata.
    pub fn get(&self) -> (r: &M)
        ensures
            *r == self@,
    {
        &self.0
    }
}

impl<M: VMetadata> std::ops::Deref for ReadableVMetadata<M> {
    type Target = M;

    fn deref(&self) -> &M {
        &self.0
    }
}

/// A read view: a snapshot of a file's metadata and bytes with a cursor. The
/// snapshot never changes, whatever happens to the file afterwards.
pub struct ReadableVFile<M: VMetadata> {
    readable_metadata: ReadableVMetadata<M>,
    contents: Arc<Vec<u8>>,
    position: usize,
}

impl<M: VMetadata> ReadableVFile<M> {
    /// The metadata of the snapshot.
    pub closed spec fn meta(&self) -> M {
        self.readable_metadata@
    }

    /// The bytes of the snapshot.
    pub closed spec fn bytes(&self) -> Seq<u8> {
        self.contents@
    }

    /// The cursor.
    pub closed spec fn pos(&self) -> int {
        self.position as int
    }

    /// The bytes from the cursor to the end: what reading to the end yields.
    pub open spec fn unread(&self) -> Seq<u8> {
        if self.pos() < self.bytes().len() {
            self.bytes().skip(self.pos())
        } else {
            Seq::empty()
        }
    }

    /// A view over `contents` with the cursor at `position`.
    pub fn with(readable_metadata: ReadableVMetadata<M>, contents: Arc<Vec<u8>>, position: usize) -> (r:
        ReadableVFile<M>)
        ensures
            r.meta() == readable_metadata@,
            r.bytes() == contents@,
            r.pos() == position,
    {
        ReadableVFile { readable_metadata, contents, position }
    }

    /// The same as `with`.
    pub fn new(readable_metadata: ReadableVMetadata<M>, contents: Arc<Vec<u8>>, position: usize) -> (r:
        ReadableVFile<M>)
        ensures
            r.meta() == readable_metadata@,
            r.bytes() == contents@,
            r.pos() == position,
    {
        ReadableVFile { readable_metadata, contents, position }
    }

    /// The metadata of the snapshot.
    pub fn metadata(&self) -> (r: &ReadableVMetadata<M>)
        ensures
            r@ == self.meta(),
    {
        &self.readable_metadata
    }

    /// Copies bytes from the cursor into `buf`, as many as fit and remain,
    /// and moves the cursor past them. Returns how many were copied.
    pub fn read(&mut self, buf: &mut [u8]) -> (n: usize)
        ensures
            n == read_amount(old(self).bytes().len() as int, old(self).pos(), old(buf)@.len() as int),
            filled(old(buf)@, final(buf)@, old(self).bytes(), old(self).pos(), n as int),
            final(self).pos() == old(self).pos() + n,
            final(self).bytes() == old(self).bytes(),
            final(self).meta() == old(self).meta(),
    {
        let n = read_into(&self.contents, self.position, buf);
        self.position = self.position + n;
        n
    }

    /// Moves the cursor; fails, leaving it, when the target would be negative
    /// or too large. Positions past the end are allowed.
    pub fn seek(&mut self, pos: SeekFrom) -> (r: Result<u64, Error>)
        ensures
            final(self).bytes() == old(self).bytes(),
            final(self).meta() == old(self).meta(),
            match r {
                Ok(p) => valid_position(seek_target(pos, old(self).pos(), old(self).bytes().len() as int))
                    && p == seek_target(pos, old(self).pos(), old(self).bytes().len() as int)
                    && final(self).pos() == p,
                Err(e) => !valid_position(
                    seek_target(pos, old(self).pos(), old(self).bytes().len() as int),
                ) && e is IoError && final(self).pos() == old(self).pos(),
            },
    {
        let len = self.contents.len();
        match seek_position(pos, self.position, len) {
            Ok(p) => {
                self.position = p;
                Ok(p as u64)
            },
            Err(e) => Err(e),
        }
    }

    /// The cursor.
    pub fn stream_position(&self) -> (r: u64)
        ensures
            r == self.pos(),
    {
        self.position as u64
    }
}

impl<M: VMetadata> std::ops::Deref for ReadableVFile<M> {
    type Target = ReadableVMetadata<M>;

    fn deref(&self) -> &ReadableVMetadata<M> {
        &self.readable_metadata
    }
}

/// Write access to a file's metadata, bound to a backend and a path. The
/// metadata is a private copy until `close` stores it; dropping it without
/// `close` stores nothing.
/// The fields are public for the reason given on `WritableVFile`.
#[must_use]
pub struct WritableVMetadata<'a, M: VMetadata, F: VFileSystem<M>> {
    pub filesystem: &'a mut F,
    pub path: VPath,
    pub metadata: M,
}

impl<'a, M: VMetadata, F: VFileSystem<M>> WritableVMetadata<'a, M, F> {
    /// Binds `metadata` to `path` on `filesystem`.
    pub fn with(filesystem: &'a mut F, path: VPath, metadata: M) -> (r: WritableVMetadata<'a, M, F>)
        ensures
            *r.filesystem == *old(filesystem),
            *final(r.filesystem) == *final(filesystem),
            r.path@ == path@,
            r.metadata == metadata,
    {
        WritableVMetadata { filesystem, path, metadata }
    }

    /// The same as `with`.
    pub fn new(filesystem: &'a mut F, path: VPath, metadata: M) -> (r: WritableVMetadata<'a, M, F>)
        ensures
            *r.filesystem == *old(filesystem),
            *final(r.filesystem) == *final(filesystem),
            r.path@ == path@,
            r.metadata == metadata,
    {
        WritableVMetadata { filesystem, path, metadata }
    }

    /// Stores the metadata copy into the file at the bound path, keeping the
    /// bytes stored there. Returns the file it replaces.
    pub fn close(self) -> (r: Result<Option<VFile<M>>, Error>)
        ensures
            same_setup(*old(self.filesystem), *final(self.filesystem)),
            lookup_outcome(
                &r,
                old(self.filesystem).entries().contains_key(self.path@),
                old(self.filesystem).fallible(),
            ),
            match r {
                Ok(prev) => final(self.filesystem).entries() == old(self.filesystem).entries().insert(
                    self.path@,
                    (self.metadata, old(self.filesystem).entries()[self.path@].1),
                ) && previous(prev, old(self.filesystem).entries(), self.path@),
                Err(_) => final(self.filesystem).entries() == old(self.filesystem).entries(),
            },
    {
        let WritableVMetadata { filesystem, path, metadata } = self;
        let contents = match filesystem.fs_contents(&path) {
            Ok(c) => c,
            Err(e) => return Err(e),
        };
        filesystem.fs_insert(&path, VFile::create(metadata, contents))
    }
}

impl<'a, M: VMetadata, F: VFileSystem<M>> std::ops::Deref for WritableVMetadata<'a, M, F> {
    type Target = M;

    fn deref(&self) -> &M {
        &self.metadata
    }
}

impl<'a, M: VMetadata, F: VFileSystem<M>> std::ops::DerefMut for WritableVMetadata<'a, M, F> {
    fn deref_mut(&mut self) -> &mut M {
        &mut self.metadata
    }
}

/// A write view: a private copy of a file's bytes with a cursor, and of its
/// metadata. Nothing reaches the backend until `close` stores both at the
/// bound path in one step.
///
/// Release is explicit: a view dropped without `close` stores nothing. A
/// `Drop` impl that commits would have to be proved never to unwind and to
/// open no invariant, which a backend's insertion (it allocates) cannot be.
/// The fields are public because the contracts of the operations that hand
/// out a view speak of the final value of its backend reference, which only a
/// field, not a spec function, can name.
#[must_use]
pub struct WritableVFile<'a, M: VMetadata, F: VFileSystem<M>> {
    pub writable_metadata: WritableVMetadata<'a, M, F>,
    pub buffer: Vec<u8>,
    pub position: usize,
}

impl<'a, M: VMetadata, F: VFileSystem<M>> WritableVFile<'a, M, F> {
    /// A write view over `contents`, cursor at the start.
    pub fn with(writable_metadata: WritableVMetadata<'a, M, F>, contents: Vec<u8>) -> (r:
        WritableVFile<'a, M, F>)
        ensures
            r.writable_metadata == writable_metadata,
            r.buffer@ == contents@,
            r.position == 0,
    {
        WritableVFile { writable_metadata, buffer: contents, position: 0 }
    }

    /// The same as `with`.
    pub fn new(writable_metadata: WritableVMetadata<'a, M, F>, contents: Vec<u8>) -> (r:
        WritableVFile<'a, M, F>)
        ensures
            r.writable_metadata == writable_metadata,
            r.buffer@ == contents@,
            r.position == 0,
    {
        WritableVFile { writable_metadata, buffer: contents, position: 0 }
    }

    /// Writes `data` at the cursor into the private copy and moves the cursor
    /// past it. The backend is not touched. Fails, changing nothing, when the
    /// cursor would pass the largest position.
    pub fn write(&mut self, data: &[u8]) -> (r: Result<usize, Error>)
        ensures
            final(self).writable_metadata == old(self).writable_metadata,
            match r {
                Ok(n) => old(self).position + data@.len() <= usize::MAX && n == data@.len()
                    && final(self).buffer@ == write_at(
                    old(self).buffer@,
                    old(self).position as int,
                    data@,
                ) && final(self).position == old(self).position + n,
                Err(e) => old(self).position + data@.len() > usize::MAX && e is IoError
                    && final(self).buffer@ == old(self).buffer@ && final(self).position == old(self).position,
            },
    {
        let pos = self.position;
        let n = data.len();
        if n > usize::MAX - pos {
            return Err(Error::IoError(invalid_input()));
        }
        let ghost before = self.buffer@;
        let ghost padded = if pos <= before.len() {
            before
        } else {
            before + Seq::new((pos - before.len()) as nat, |i: int| 0u8)
        };
        proof {
            assert forall|k: int| before.len() <= k < padded.len() implies #[trigger] padded[k] == 0u8 by {
                if before.len() < pos {
                    assert(padded[k] == Seq::new((pos - before.len()) as nat, |i: int| 0u8)[k - before.len()]);
                }
            }
        }
        while self.buffer.len() < pos
            invariant
                self.writable_metadata == old(self).writable_metadata,
                padded.len() == if before.len() < pos {
                    pos as int
                } else {
                    before.len() as int
                },
                before.len() <= self.buffer@.len() <= padded.len(),
                forall|k: int| 0 <= k < self.buffer@.len() ==> #[trigger] self.buffer@[k] == padded[k],
                forall|k: int| before.len() <= k < padded.len() ==> #[trigger] padded[k] == 0u8,
            decreases pos - self.buffer.len(),
        {
            proof {
                assert(padded[self.buffer@.len() as int] == 0u8);
            }
            self.buffer.push(0);
        }
        proof {
            assert(self.buffer@ =~= padded);
        }
        let mut i: usize = 0;
        while i < n
            invariant
                self.writable_metadata == old(self).writable_metadata,
                i <= n,
                n == data@.len(),
                pos + n <= usize::MAX,
                padded.len() >= pos,
                self.buffer@.len() == if padded.len() > pos + i {
                    padded.len() as int
                } else {
                    pos + i
                },
                forall|k: int| 0 <= k < pos ==> #[trigger] self.buffer@[k] == padded[k],
                forall|k: int| pos <= k < pos + i ==> #[trigger] self.buffer@[k] == data@[k - pos],
                forall|k: int|
                    pos + i <= k < self.buffer@.len() ==> #[trigger] self.buffer@[k] == padded[k],
            decreases n - i,
        {
            if pos + i < self.buffer.len() {
                self.buffer.set(pos + i, data[i]);
            } else {
                self.buffer.push(data[i]);
            }
            i = i + 1;
        }
        proof {
            assert(self.buffer@ =~= write_at(before, pos as int, data@));
        }
        self.position = pos + n;
        Ok(n)
    }

    /// Nothing is buffered beyond the private copy, so there is nothing to do.
    pub fn flush(&mut self) -> (r: Result<(), Error>)
        ensures
            *final(self) == *old(self),
            r is Ok,
    {
        Ok(())
    }

    /// Moves the cursor; fails, leaving it, when the target would be negative
    /// or too large. Positions past the end are allowed.
    pub fn seek(&mut self, pos: SeekFrom) -> (r: Result<u64, Error>)
        ensures
            final(self).writable_metadata == old(self).writable_metadata,
            final(self).buffer@ == old(self).buffer@,
            match r {
                Ok(p) => valid_position(seek_target(pos, old(self).position as int, old(self).buffer@.len() as int))
                    && p == seek_target(pos, old(self).position as int, old(self).buffer@.len() as int)
                    && final(self).position == p,
                Err(e) => !valid_position(
                    seek_target(pos, old(self).position as int, old(self).buffer@.len() as int),
                ) && e is IoError && final(self).position == old(self).position,
            },
    {
        let len = self.buffer.len();
        match seek_position(pos, self.position, len) {
            Ok(p) => {
                self.position = p;
                Ok(p as u64)
            },
            Err(e) => Err(e),
        }
    }

    /// The cursor.
    pub fn stream_position(&self) -> (r: u64)
        ensures
            r == self.position,
    {
        self.position as u64
    }

    /// Copies bytes of the private copy from the cursor into `buf`, as many
    /// as fit and remain, and moves the cursor past them.
    pub fn read(&mut self, buf: &mut [u8]) -> (n: usize)
        ensures
            final(self).writable_metadata == old(self).writable_metadata,
            final(self).buffer@ == old(self).buffer@,
            n == read_amount(old(self).buffer@.len() as int, old(self).position as int, old(buf)@.len() as int),
            filled(old(buf)@, final(buf)@, old(self).buffer@, old(self).position as int, n as int),
            final(self).position == old(self).position + n,
    {
        let n = read_into(&self.buffer, self.position, buf);
        self.position = self.position + n;
        n
    }

    /// Stores the private copies of bytes and metadata at the bound path in
    /// one step, returning the file they replace.
    pub fn close(self) -> (r: Result<Option<VFile<M>>, Error>)
        ensures
            same_setup(*old(self.writable_metadata.filesystem), *final(self.writable_metadata.filesystem)),
            insert_outcome(
                old(self.writable_metadata.filesystem).entries(),
                final(self.writable_metadata.filesystem).entries(),
                old(self.writable_metadata.filesystem).fallible(),
                self.writable_metadata.path@,
                (self.writable_metadata.metadata, self.buffer@),
                r,
            ),
    {
        let WritableVFile { writable_metadata, buffer, position: _ } = self;
        let WritableVMetadata { filesystem, path, metadata } = writable_metadata;
        filesystem.fs_insert(&path, VFile::create(metadata, Arc::new(buffer)))
    }
}

impl<'a, M: VMetadata, F: VFileSystem<M>> std::ops::Deref for WritableVFile<'a, M, F> {
    type Target = WritableVMetadata<'a, M, F>;

    fn deref(&self) -> &WritableVMetadata<'a, M, F> {
        &self.writable_metadata
    }
}

impl<'a, M: VMetadata, F: VFileSystem<M>> std::ops::DerefMut for WritableVFile<'a, M, F> {
    fn deref_mut(&mut self) -> &mut WritableVMetadata<'a, M, F> {
        &mut self.writable_metadata
    }
}

} // verus!
