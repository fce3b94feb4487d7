//! Tag values attached to a per-step node-data view: an integer tag and the
//! pair of text tags naming a view and its interpolation scheme.

use vstd::prelude::*;

verus! {

/// An integer tag.
#[derive(Clone, Debug, PartialEq, Eq)]
pub struct Integer(pub i32);

impl Integer {
    pub fn new(x: i32) -> (r: Integer)
        ensures
            r.0 == x,
    {
        Integer(x)
    }
}

/// The text tags of a node-data view: its name and its interpolation
/// scheme.
#[derive(Clone, Debug, PartialEq, Eq)]
pub struct Text {
    pub view: String,
    pub interpolation_scheme: String,
}

impl Text {
    pub fn new(view: String, interpolation_scheme: String) -> (r: Text)
        ensures
            r.view == view && r.interpolation_scheme == interpolation_scheme,
    {
        Text { view, interpolation_scheme }
    }
}

} // verus!
