//! The canonical format header: the version literal as it stood in the
//! text, the file-type flag (zero for ASCII) and the data size, which is
//! informational only.

use vstd::prelude::*;

verus! {

/// Model of a format header.
#[verifier::ext_equal]
pub ghost struct FormatV {
    pub version: Seq<u8>,
    pub file: i32,
    pub size: i32,
}

/// A mesh file's format header.
#[derive(Clone, Debug, PartialEq, Eq)]
pub struct Format {
    pub version: Vec<u8>,
    pub file: i32,
    pub size: i32,
}

impl View for Format {
    type V = FormatV;

    open spec fn view(&self) -> FormatV {
        FormatV { version: self.version@, file: self.file, size: self.size }
    }
}

impl Format {
    pub fn new(version: Vec<u8>, file: i32, size: i32) -> (r: Format)
        ensures
            r@ == (FormatV { version: version@, file, size }),
    {
        Format { version, file, size }
    }
}

} // verus!
