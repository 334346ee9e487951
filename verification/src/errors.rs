//! The store's error taxonomy.

use vstd::prelude::*;

verus! {

/// Everything that a store operation can fail with.
///
/// - `DirectoryResolution`: no per-application data directory could be
///   determined at construction time.
/// - `Io`: an open, read or write on the underlying file failed.
/// - `EmptyFile`: the strict load found a zero-length file, meaning no
///   value was ever written.
/// - `Decode`: the strict load found non-empty bytes that are not a valid
///   encoding.
/// - `Encode`: the codec rejected the value that was to be saved.
#[derive(Clone, Copy, Debug, PartialEq, Eq, Structural)]
pub enum StoreError {
    DirectoryResolution,
    Io,
    EmptyFile,
    Decode,
    Encode,
}

} // verus!
