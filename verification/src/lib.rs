//! Decoder for the Gmsh ASCII mesh text format. Three dialects — the legacy
//! flat one, the tagged 2.2 one, and the entity-block 4.1 one — are each
//! parsed against an exact grammar model and normalised into one canonical
//! mesh of nodes and elements.

pub mod decode;
pub mod element;
pub mod format;
pub mod marker;
pub mod mesh;
pub mod node;
pub mod node_data;
pub mod num;
pub mod props;
pub mod step;
pub mod tag;
pub mod token;
