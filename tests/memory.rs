use rvfs::impls::memory::MemoryFileSystem;
use rvfs::{
    Error, NoMetaData, PathLike, ReadableVFile, ReadableVMetadata, SeekFrom, VDirectory,
    VDirectoryIterator, VFile, VFileContainer, VFileSystem, VMetadata, VPath, WritableVFile,
    WritableVMetadata,
};
use std::sync::Arc;

#[derive(Clone, Copy, Debug, Default, PartialEq, Eq)]
struct Tag(u8);

impl VMetadata for Tag {}

fn path(s: &str) -> VPath {
    VPath::normalized(s)
}

fn empty_fs() -> MemoryFileSystem<NoMetaData> {
    MemoryFileSystem::new_empty(path("/"))
}

fn file(bytes: &[u8]) -> VFile<NoMetaData> {
    VFile::create(NoMetaData, Arc::new(bytes.to_vec()))
}

fn drain<M: VMetadata>(r: &mut ReadableVFile<M>) -> Vec<u8> {
    let mut out = Vec::new();
    let mut buf = [0u8; 2];
    loop {
        let n = r.read(&mut buf);
        if n == 0 {
            return out;
        }
        out.extend_from_slice(&buf[..n]);
    }
}

fn listed(mut it: VDirectoryIterator) -> Vec<String> {
    let mut out = Vec::new();
    while let Some(p) = it.next() {
        out.push(p.as_str().to_string());
    }
    out.sort();
    out
}

#[test]
fn create_write_release_then_read() {
    let mut fs = empty_fs();
    let x = path("/x");
    let mut w = fs.file_create(&x).unwrap();
    assert_eq!(w.write(b"abc").unwrap(), 3);
    w.close().unwrap();
    assert!(fs.file_exists(&x).unwrap());
    let mut r = fs.file_read(&x).unwrap();
    assert_eq!(drain(&mut r), b"abc".to_vec());
}

#[test]
fn insert_then_move() {
    let mut fs = empty_fs();
    let a = path("/a/b.txt");
    let c = path("/c/b.txt");
    assert!(fs.file_replace(&a, file(b"hi")).unwrap().is_none());
    assert!(fs.file_move(&a, &c).unwrap().is_none());
    assert!(!fs.file_exists(&a).unwrap());
    let mut r = fs.file_read(&c).unwrap();
    assert_eq!(drain(&mut r), b"hi".to_vec());
}

#[test]
fn directory_iteration_filters_by_prefix() {
    let mut fs = empty_fs();
    fs.file_replace(&path("/a/b.txt"), file(b"")).unwrap();
    assert_eq!(listed(fs.dir_iter(&path("/a/"), false).unwrap()), vec!["/a/b.txt".to_string()]);
    assert!(listed(fs.dir_iter(&path("/"), false).unwrap()).is_empty());
    assert_eq!(listed(fs.dir_iter(&path("/"), true).unwrap()), vec!["/a/b.txt".to_string()]);
}

#[test]
fn directory_iteration_direct_children_and_subtree() {
    let mut fs = empty_fs();
    for p in ["/a/x", "/a/y", "/a/sub/z", "/b/w", "/ab/v"] {
        fs.file_replace(&path(p), file(b"")).unwrap();
    }
    assert_eq!(listed(fs.dir_iter(&path("/a"), false).unwrap()), vec!["/a/x", "/a/y"]);
    assert_eq!(
        listed(fs.dir_iter(&path("/a"), true).unwrap()),
        vec!["/a/sub/z", "/a/x", "/a/y"]
    );
    assert_eq!(listed(fs.dir_iter(&path("/"), true).unwrap()).len(), 5);
}

#[test]
fn iterator_created_directly() {
    let inner = vec![path("/d/e"), path("/x"), path("/d/f/g")];
    let it = VDirectoryIterator::create(inner, path("/d"), false);
    assert_eq!(listed(it), vec!["/d/e"]);
}

#[test]
fn round_trip_of_written_bytes() {
    let mut fs = empty_fs();
    let x = path("/data.bin");
    let bytes: Vec<u8> = (0u8..=200).collect();
    let mut w = fs.file_create(&x).unwrap();
    w.write(&bytes).unwrap();
    w.close().unwrap();
    let mut r = fs.file_read(&x).unwrap();
    assert_eq!(drain(&mut r), bytes);
}

#[test]
fn reader_opened_before_release_sees_old_bytes() {
    let mut fs = empty_fs();
    let x = path("/x");
    fs.file_replace(&x, file(b"old")).unwrap();
    let mut before = fs.file_read(&x).unwrap();
    let mut w = fs.file_write(&x).unwrap();
    w.write(b"NEW!").unwrap();
    w.close().unwrap();
    assert_eq!(drain(&mut before), b"old".to_vec());
    let mut after = fs.file_read(&x).unwrap();
    assert_eq!(drain(&mut after), b"NEW!".to_vec());
}

#[test]
fn copy_is_independent_of_later_writes() {
    let mut fs = empty_fs();
    let x = path("/x");
    let y = path("/y");
    fs.file_replace(&x, file(b"first")).unwrap();
    assert!(fs.file_copy(&x, &y).unwrap().is_none());
    let mut w = fs.file_write(&x).unwrap();
    w.write(b"SECOND").unwrap();
    w.close().unwrap();
    assert_eq!(drain(&mut fs.file_read(&y).unwrap()), b"first".to_vec());
    assert_eq!(drain(&mut fs.file_read(&x).unwrap()), b"SECOND".to_vec());
}

#[test]
fn copy_returns_replaced_file() {
    let mut fs = empty_fs();
    fs.file_replace(&path("/x"), file(b"1")).unwrap();
    fs.file_replace(&path("/y"), file(b"22")).unwrap();
    let prev = fs.file_copy(&path("/x"), &path("/y")).unwrap().unwrap();
    assert_eq!(prev.contents().as_slice(), b"22");
}

#[test]
fn missing_path_fails_with_entry_not_found() {
    let mut fs = empty_fs();
    let m = path("/missing");
    let other = path("/other");
    assert!(matches!(fs.fs_remove(&m), Err(Error::EntryNotFound)));
    assert!(matches!(fs.fs_move(&m, other.clone()), Err(Error::EntryNotFound)));
    assert!(matches!(fs.fs_copy(&m, other.clone()), Err(Error::EntryNotFound)));
    assert!(matches!(fs.fs_contents(&m), Err(Error::EntryNotFound)));
    assert!(matches!(fs.fs_meta(&m), Err(Error::EntryNotFound)));
    assert!(matches!(fs.file_read(&m), Err(Error::EntryNotFound)));
    assert!(matches!(fs.file_write(&m), Err(Error::EntryNotFound)));
    assert!(matches!(fs.file_remove(&m), Err(Error::EntryNotFound)));
    assert!(matches!(fs.meta_read(&m), Err(Error::EntryNotFound)));
    assert!(matches!(fs.meta_write(&m), Err(Error::EntryNotFound)));
    assert!(!fs.file_exists(&other).unwrap());
}

#[test]
fn insert_replaces_and_returns_previous() {
    let mut fs = empty_fs();
    let x = path("/x");
    assert!(fs.fs_insert(&x, file(b"a")).unwrap().is_none());
    let prev = fs.fs_insert(&x, file(b"bb")).unwrap().unwrap();
    assert_eq!(prev.contents().as_slice(), b"a");
    assert_eq!(fs.fs_contents(&x).unwrap().as_slice(), b"bb");
    assert_eq!(fs.fs_iter().unwrap().len(), 1);
}

#[test]
fn remove_takes_file_out() {
    let mut fs = empty_fs();
    let x = path("/x");
    fs.fs_insert(&x, file(b"zz")).unwrap();
    let f = fs.fs_remove(&x).unwrap();
    assert_eq!(f.contents().as_slice(), b"zz");
    assert!(!fs.fs_exists(&x).unwrap());
    assert!(fs.fs_iter().unwrap().is_empty());
}

#[test]
fn move_onto_existing_returns_it() {
    let mut fs = empty_fs();
    fs.fs_insert(&path("/a"), file(b"A")).unwrap();
    fs.fs_insert(&path("/b"), file(b"B")).unwrap();
    let prev = fs.fs_move(&path("/a"), path("/b")).unwrap().unwrap();
    assert_eq!(prev.contents().as_slice(), b"B");
    assert_eq!(fs.fs_contents(&path("/b")).unwrap().as_slice(), b"A");
    assert_eq!(fs.fs_iter().unwrap().len(), 1);
}

#[test]
fn new_with_entries_later_pair_wins() {
    let entries = vec![(path("/a"), file(b"1")), (path("/b"), file(b"2")), (path("/a"), file(b"3"))];
    let fs = MemoryFileSystem::new(path("/root"), entries);
    assert_eq!(fs.fs_iter().unwrap().len(), 2);
    assert_eq!(fs.fs_contents(&path("/a")).unwrap().as_slice(), b"3");
    assert_eq!(fs.fs_root().as_str(), "/root");
    assert_eq!(fs.dir_root().as_str(), "/root");
}

#[test]
fn iteration_lists_every_path_once_in_insertion_order() {
    let mut fs = empty_fs();
    fs.fs_insert(&path("/z"), file(b"")).unwrap();
    fs.fs_insert(&path("/a"), file(b"")).unwrap();
    fs.fs_insert(&path("/z"), file(b"1")).unwrap();
    let names: Vec<String> = fs.fs_iter().unwrap().iter().map(|p| p.as_str().to_string()).collect();
    assert_eq!(names, vec!["/z".to_string(), "/a".to_string()]);
}

#[test]
fn create_gives_empty_file_with_default_metadata() {
    let mut fs: MemoryFileSystem<Tag> = MemoryFileSystem::new_empty(path("/"));
    let x = path("/x");
    fs.fs_insert(&x, VFile::create(Tag(7), Arc::new(vec![1, 2, 3]))).unwrap();
    let w = fs.file_create(&x).unwrap();
    assert_eq!(w.writable_metadata.metadata, Tag(0));
    assert!(w.buffer.is_empty());
    w.close().unwrap();
    assert_eq!(fs.fs_meta(&x).unwrap(), Tag(0));
    assert!(fs.fs_contents(&x).unwrap().is_empty());
}

#[test]
fn write_view_overwrites_and_extends() {
    let mut fs = empty_fs();
    let x = path("/x");
    fs.file_replace(&x, file(b"hello world")).unwrap();
    let mut w = fs.file_write(&x).unwrap();
    w.write(b"HE").unwrap();
    assert_eq!(w.stream_position(), 2);
    w.close().unwrap();
    assert_eq!(fs.fs_contents(&x).unwrap().as_slice(), b"HEllo world");
}

#[test]
fn write_past_end_fills_zeros() {
    let mut fs = empty_fs();
    let x = path("/x");
    let mut w = fs.file_create(&x).unwrap();
    assert_eq!(w.seek(SeekFrom::Start(3)).unwrap(), 3);
    w.write(b"z").unwrap();
    w.flush().unwrap();
    w.close().unwrap();
    assert_eq!(fs.fs_contents(&x).unwrap().as_slice(), &[0, 0, 0, b'z']);
}

#[test]
fn write_view_reads_its_own_buffer() {
    let mut fs = empty_fs();
    let x = path("/x");
    fs.file_replace(&x, file(b"abcdef")).unwrap();
    let mut w = fs.file_write(&x).unwrap();
    assert_eq!(w.seek(SeekFrom::End(-2)).unwrap(), 4);
    let mut buf = [0u8; 8];
    assert_eq!(w.read(&mut buf), 2);
    assert_eq!(&buf[..2], b"ef");
    assert_eq!(w.seek(SeekFrom::Current(-6)).unwrap(), 0);
    assert!(w.seek(SeekFrom::Current(-1)).is_err());
    assert_eq!(w.stream_position(), 0);
}

#[test]
fn write_view_rejects_overflowing_position() {
    let mut fs = empty_fs();
    let x = path("/x");
    let mut w = fs.file_create(&x).unwrap();
    w.seek(SeekFrom::Start(u64::MAX)).unwrap();
    assert!(matches!(w.write(b"ab"), Err(Error::IoError(_))));
    assert!(w.buffer.is_empty());
}

#[test]
fn read_view_seek_and_read() {
    let bytes = Arc::new(b"0123456789".to_vec());
    let mut r = ReadableVFile::with(ReadableVMetadata::with(NoMetaData), bytes, 0);
    let mut buf = [0u8; 3];
    assert_eq!(r.read(&mut buf), 3);
    assert_eq!(&buf, b"012");
    assert_eq!(r.seek(SeekFrom::Current(4)).unwrap(), 7);
    assert_eq!(r.read(&mut buf), 3);
    assert_eq!(&buf, b"789");
    assert_eq!(r.read(&mut buf), 0);
    assert_eq!(r.seek(SeekFrom::End(-1)).unwrap(), 9);
    assert_eq!(r.seek(SeekFrom::Start(20)).unwrap(), 20);
    assert_eq!(r.read(&mut buf), 0);
    assert!(matches!(r.seek(SeekFrom::End(-11)), Err(Error::IoError(_))));
    assert_eq!(r.stream_position(), 20);
}

#[test]
fn read_view_constructor_variants() {
    let r = ReadableVFile::new(ReadableVMetadata::new(Tag(4)), Arc::new(vec![9]), 1);
    assert_eq!(*r.metadata().get(), Tag(4));
    assert_eq!(r.stream_position(), 1);
}

#[test]
fn file_value_accessors_share_bytes() {
    let f = VFile::create(Tag(2), Arc::new(vec![1, 2]));
    let g = f.clone();
    assert_eq!(g.metadata(), Tag(2));
    assert!(Arc::ptr_eq(&f.contents(), &g.contents()));
    assert!(VFile::create_empty(Tag(1)).contents().is_empty());
}

#[test]
fn metadata_write_view_stores_metadata_only() {
    let mut fs: MemoryFileSystem<Tag> = MemoryFileSystem::new_empty(path("/"));
    let x = path("/x");
    fs.fs_insert(&x, VFile::create(Tag(1), Arc::new(vec![5, 6]))).unwrap();
    let mut m = fs.meta_write(&x).unwrap();
    assert_eq!(m.metadata, Tag(1));
    m.metadata = Tag(9);
    m.close().unwrap();
    assert_eq!(fs.meta_read(&x).unwrap().get(), &Tag(9));
    assert_eq!(fs.fs_contents(&x).unwrap().as_slice(), &[5, 6]);
}

#[test]
fn metadata_changed_through_write_view() {
    let mut fs: MemoryFileSystem<Tag> = MemoryFileSystem::new_empty(path("/"));
    let x = path("/x");
    let mut w = fs.file_create(&x).unwrap();
    w.writable_metadata.metadata = Tag(3);
    w.write(b"q").unwrap();
    w.close().unwrap();
    let r = fs.file_read(&x).unwrap();
    assert_eq!(*r.metadata().get(), Tag(3));
}

#[test]
fn writable_constructors_bind_path() {
    let mut fs = empty_fs();
    let x = path("/x");
    let meta = WritableVMetadata::new(&mut fs, x.clone(), NoMetaData);
    let w = WritableVFile::new(meta, b"raw".to_vec());
    assert_eq!(w.position, 0);
    w.close().unwrap();
    assert_eq!(fs.fs_contents(&x).unwrap().as_slice(), b"raw");
    let meta = WritableVMetadata::with(&mut fs, x.clone(), NoMetaData);
    let w = WritableVFile::with(meta, b"again".to_vec());
    w.close().unwrap();
    assert_eq!(fs.fs_contents(&x).unwrap().as_slice(), b"again");
}

#[test]
fn directory_operations_resolve_under_root() {
    let mut fs = empty_fs();
    let root = path("/home");
    {
        let mut dir = VDirectory::create(&mut fs, root.clone());
        assert_eq!(dir.dir_root().as_str(), "/home");
        let mut w = dir.file_create(&path("/notes.txt")).unwrap();
        w.write(b"n").unwrap();
        w.close().unwrap();
        assert!(dir.file_exists(&path("/notes.txt")).unwrap());
        dir.file_copy(&path("/notes.txt"), &path("/copy.txt")).unwrap();
        dir.file_move(&path("/copy.txt"), &path("/moved.txt")).unwrap();
        assert!(dir.dir_exists(&path("/")).unwrap());
    }
    assert!(fs.file_exists(&path("/home/notes.txt")).unwrap());
    assert!(fs.file_exists(&path("/home/moved.txt")).unwrap());
    assert!(!fs.file_exists(&path("/home/copy.txt")).unwrap());
    assert!(!fs.file_exists(&path("/notes.txt")).unwrap());
    assert!(fs.dir_exists(&path("/home")).unwrap());
    assert!(!fs.dir_exists(&path("/hom")).unwrap());
    assert!(!fs.dir_exists(&path("/home/notes.txt")).unwrap());
}

#[test]
fn directory_matches_backend_on_joined_path() {
    let mut fs = empty_fs();
    fs.file_replace(&path("/r/a"), file(b"ra")).unwrap();
    fs.file_replace(&path("/r/s/b"), file(b"rb")).unwrap();
    let direct = drain(&mut fs.file_read(&path("/r/a")).unwrap());
    let mut dir = VDirectory::create(&mut fs, path("/r"));
    let scoped = drain(&mut dir.file_read(&path("/a")).unwrap());
    assert_eq!(direct, scoped);
    assert_eq!(dir.meta_read(&path("/a")).unwrap().get(), &NoMetaData);
    assert_eq!(listed(dir.dir_iter(&path(""), false).unwrap()), vec!["/r/a"]);
    assert!(matches!(dir.file_read(&path("/missing")), Err(Error::EntryNotFound)));
    let removed = dir.file_remove(&path("/a")).unwrap();
    assert_eq!(removed.contents().as_slice(), b"ra");
    let mut nested = dir.dir_open(&path("/s"));
    assert_eq!(nested.dir_root().as_str(), "/r/s");
    assert_eq!(drain(&mut nested.file_read(&path("/b")).unwrap()), b"rb".to_vec());
    let mut w = nested.file_write(&path("/b")).unwrap();
    w.write(b"RB").unwrap();
    w.close().unwrap();
    let mut m = nested.meta_write(&path("/b")).unwrap();
    m.metadata = NoMetaData;
    m.close().unwrap();
    nested.file_replace(&path("/c"), file(b"c")).unwrap();
    assert!(fs.file_exists(&path("/r/s/c")).unwrap());
    assert_eq!(fs.fs_contents(&path("/r/s/b")).unwrap().as_slice(), b"RB");
    assert!(!fs.file_exists(&path("/r/a")).unwrap());
}

#[test]
fn views_deref_to_metadata() {
    let mut fs: MemoryFileSystem<Tag> = MemoryFileSystem::new_empty(path("/"));
    let x = path("/x");
    fs.fs_insert(&x, VFile::create(Tag(5), Arc::new(vec![1]))).unwrap();
    let r = fs.file_read(&x).unwrap();
    assert_eq!(**r, Tag(5));
    let mut w = fs.file_write(&x).unwrap();
    **w = Tag(6);
    assert_eq!(w.path.as_str(), "/x");
    w.close().unwrap();
    assert_eq!(*fs.meta_read(&x).unwrap(), Tag(6));
}

#[test]
fn listing_order_is_the_same_through_a_directory() {
    let mut fs = empty_fs();
    for p in ["/r/c", "/r/a", "/r/b"] {
        fs.file_replace(&path(p), file(b"")).unwrap();
    }
    let mut direct = Vec::new();
    let mut it = fs.dir_iter(&path("/r"), false).unwrap();
    while let Some(p) = it.next() {
        direct.push(p);
    }
    let dir = VDirectory::create(&mut fs, path("/r"));
    let mut scoped = Vec::new();
    let mut it = dir.dir_iter(&path(""), false).unwrap();
    while let Some(p) = it.next() {
        scoped.push(p);
    }
    assert_eq!(direct, scoped);
    assert_eq!(direct.len(), 3);
}
