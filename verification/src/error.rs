//! Reasons for which loading an archive or decoding a lump is abandoned.

use vstd::prelude::*;

verus! {

/// A read that ran past the end of the byte source.
#[derive(Debug, Clone, Copy, PartialEq, Eq)]
pub enum IoError {
    /// Fewer than twelve bytes were available for the header.
    Header,
    /// The directory record at `index` extends past the end of the source.
    DirectoryRecord { index: usize },
    /// The data of the lump at `index` extends past the end of the source.
    Lump { index: usize },
}

/// Bytes that do not follow the archive format.
#[derive(Debug, Clone, Copy, PartialEq, Eq)]
pub enum FormatError {
    /// The first four bytes name no known archive kind.
    Magic { bytes: [u8; 4] },
    /// The content-type byte of the directory record at `index` is not one of the known codes.
    ContentType { index: usize, code: u8 },
    /// The name of the directory record at `index` holds a byte outside ASCII.
    Name { index: usize },
    /// A lump of `len` bytes cannot be cut into records of `stride` bytes.
    RecordSize { len: usize, stride: usize },
}

/// A feature that the format reserves and this reader does not implement.
#[derive(Debug, Clone, Copy, PartialEq, Eq)]
pub enum UnsupportedFeature {
    /// The directory record at `index` declares the compression code `code`.
    Compression { index: usize, code: u8 },
}

/// Every way in which a load or a decode can fail.
#[derive(Debug, Clone, Copy, PartialEq, Eq)]
pub enum WadError {
    Io(IoError),
    Format(FormatError),
    Unsupported(UnsupportedFeature),
}

} // verus!
