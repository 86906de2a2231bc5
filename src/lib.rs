//! A backend-agnostic virtual filesystem: canonical paths, files made of
//! metadata and shared content, read and write views, a backend contract with
//! operations derived from it, scoped directories, and an in-memory backend.

pub mod directory;
pub mod error;
pub mod filesystem;
pub mod impls;
pub mod io;
pub mod metadata;
pub mod path;
mod support;

pub use directory::{VDirectory, VDirectoryIterator, VFileContainer};
pub use error::Error;
pub use filesystem::VFileSystem;
pub use io::{ReadableVFile, ReadableVMetadata, SeekFrom, VFile, WritableVFile, WritableVMetadata};
pub use metadata::{NoMetaData, VMetadata};
pub use path::{PathLike, VPath, SEPARATOR};
