use vstd::prelude::*;

verus! {

/// Failures of a file digest.
#[derive(Debug)]
pub enum MD5Error {
    /// The file could not be read.
    IOError(String),
    /// The path names no readable file.
    InvalidPath(String),
}

/// The digest of a file and its size.
#[derive(Debug)]
pub struct MDCalculateResult {
    /// The digest, in hexadecimal.
    pub hash: String,
    /// The size of the file in bytes.
    pub file_size: u64,
}

/// The file whose digest is wanted.
#[derive(Debug)]
pub struct MD5Calculator {
    file_path: String,
}

impl MD5Calculator {
    /// For the file at `file_path`.
    pub fn new(file_path: String) -> (r: Self)
        ensures
            r.path() == file_path,
    {
        MD5Calculator { file_path }
    }

    /// The path of the file.
    pub closed spec fn path(&self) -> String {
        self.file_path
    }

    /// The path of the file.
    pub fn file_path(&self) -> (r: &String)
        ensures
            *r == self.path(),
    {
        &self.file_path
    }
}

} // verus!
