//! Reader for id-Software-style WAD archives, as Doom and Quake use them.
//!
//! An archive is a header, a directory of fixed-size records, and the bytes of the lumps
//! that the records describe. The archive is read from a byte buffer in one go and is
//! immutable afterwards:
//!
//! - [`wad`] holds the header, the archive with its lumps, and the entry, a position in
//!   the directory that steps from lump to lump;
//! - [`dir`] holds the two directory layouts and the cache of lump data;
//! - [`doom`] recognizes the run of lumps that makes up a map, decodes vertexes, things
//!   and linedefs, and classifies thing types and linedef specials;
//! - [`text`] and [`utils`] cut names and numbers out of raw bytes;
//! - [`error`] lists the reasons for which reading is abandoned.
//!
//! Every function states what it returns over a mathematical view of its arguments: the
//! formats are spec functions from bytes to views, and the readers are proved to compute
//! them.

pub mod dir;
pub mod doom;
pub mod error;
pub mod text;
pub mod utils;
pub mod wad;
