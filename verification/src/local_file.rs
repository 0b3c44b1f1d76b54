//! A file on the local disk that is to be uploaded.

use vstd::prelude::*;

verus! {

/// A local file and the name that the platform shall list it under.
#[derive(Clone, Debug, PartialEq, Eq)]
pub struct NamedLocalFile {
    pub name: String,
    pub path: String,
}

} // verus!
