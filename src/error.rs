use vstd::prelude::*;

verus! {

/// `std::io::Error`, carried unopened inside [`Error::IoError`].
#[verifier::external_type_specification]
#[verifier::external_body]
pub struct ExIoError(std::io::Error);

/// The failures that filesystem operations report.
#[derive(Debug)]
pub enum Error {
    /// A lower-level byte-stream operation failed.
    IoError(std::io::Error),
    /// No file is stored at the requested path.
    EntryNotFound,
}

} // verus!
