use vstd::prelude::*;

verus! {

/// What a per-file metadata type must offer: a default value for new files,
/// equality, and cheap duplication.
pub trait VMetadata: Sized + Clone + Copy + Eq + PartialEq + Default + Send + Sync + 'static {}

/// Metadata for filesystems that keep none.
#[derive(Clone, Copy, Debug, PartialEq, Eq, Structural, Default)]
pub struct NoMetaData;

impl VMetadata for NoMetaData {}

} // verus!
