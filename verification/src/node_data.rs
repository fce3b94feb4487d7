//! The tag groups of a per-step node-data view: the two text tags and the
//! four integer tags the format attaches to each step.

use vstd::prelude::*;

verus! {

/// The text tags of a node-data step: the view's name and its interpolation
/// scheme.
#[derive(Clone, Debug, PartialEq, Eq)]
pub struct StringTags {
    pub view: String,
    pub interpolation_scheme: String,
}

impl StringTags {
    pub fn new(view: String, interpolation_scheme: String) -> (r: StringTags)
        ensures
            r.view == view && r.interpolation_scheme == interpolation_scheme,
    {
        StringTags { view, interpolation_scheme }
    }
}

/// The integer tags of a node-data step.
#[derive(Clone, Copy, Debug, PartialEq, Eq, Structural)]
pub struct IntegerTags {
    pub time_step_index: i32,
    pub number_of_field_components: i32,
    pub number_of_entities: i32,
    pub partition_index: i32,
}

impl IntegerTags {
    pub fn new(
        time_step_index: i32,
        number_of_field_components: i32,
        number_of_entities: i32,
        partition_index: i32,
    ) -> (r: IntegerTags)
        ensures
            r == (IntegerTags {
                time_step_index,
                number_of_field_components,
                number_of_entities,
                partition_index,
            }),
    {
        IntegerTags {
            time_step_index,
            number_of_field_components,
            number_of_entities,
            partition_index,
        }
    }
}

} // verus!
