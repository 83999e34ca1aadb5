//! Where a training run writes its result.

use vstd::prelude::*;

verus! {

/// The output location of a training run.
pub struct Output {
    /// The name of the output.
    pub name: String,
    /// The directory the output is saved under.
    pub directory: String,
}

impl Output {
    /// An output location from its name and directory.
    pub fn new(name: &str, directory: &str) -> (r: Self)
        ensures
            r.name@ == name@,
            r.directory@ == directory@,
    {
        Output { name: name.to_owned(), directory: directory.to_owned() }
    }
}

} // verus!
