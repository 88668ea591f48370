//! What came of reading and writing the files the program keeps.

use vstd::prelude::*;

verus! {

/// What came of reading a file.
#[derive(Debug, Clone)]
pub enum FileRead<T> {
    /// There is no directory to keep the file in.
    NoPlace,
    /// The file is not there.
    Missing,
    /// The file at `path` could not be read.
    Unreadable { path: String, error: String },
    /// The file at `path` does not hold what it should.
    Malformed { path: String, error: String },
    /// What the file holds.
    Found(T),
}

/// What came of writing a file: a sibling is written, made private and renamed into place.
#[derive(Debug, Clone)]
pub enum FileWrite {
    /// There is no directory to keep the file in.
    NoPlace,
    /// The directory could not be made.
    NoDirectory { dir: String, error: String },
    /// The value could not be turned into text.
    Unserialized { error: String },
    /// The file at `path` could not be written.
    Unwritten { path: String, error: String },
    /// The file at `path` could not be made private.
    Unprotected { path: String, error: String },
    /// The file at `from` could not be renamed to `to`.
    Unrenamed { from: String, to: String, error: String },
    /// The file was written.
    Written,
}

} // verus!
