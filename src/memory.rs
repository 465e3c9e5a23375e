//! Context shared by the rules of one scan.
use vstd::prelude::*;

verus! {

/// What is known of the file being scanned.
#[derive(Debug, Default)]
pub struct Metadata<'a> {
    pub file_path: &'a str,
}

impl<'a> Metadata<'a> {
    pub fn new(file_path: &'a str) -> (r: Metadata<'a>)
        ensures
            r.file_path == file_path,
    {
        Metadata { file_path }
    }
}

} // verus!
