//! The canonical node: three coordinate literals, carried exactly as they
//! stand in the text. Coordinate fields are never interpreted by the
//! decoder, only stored; the node's id is the key of the mesh's node map.

use vstd::prelude::*;

verus! {

/// Model of a node: the three coordinate tokens as byte sequences.
#[verifier::ext_equal]
pub ghost struct NodeV {
    pub x: Seq<u8>,
    pub y: Seq<u8>,
    pub z: Seq<u8>,
}

/// A node's position, each coordinate held as the decimal literal that
/// spelled it in the input.
#[derive(Clone, Debug, PartialEq, Eq)]
pub struct Node {
    pub x: Vec<u8>,
    pub y: Vec<u8>,
    pub z: Vec<u8>,
}

impl View for Node {
    type V = NodeV;

    open spec fn view(&self) -> NodeV {
        NodeV { x: self.x@, y: self.y@, z: self.z@ }
    }
}

impl Node {
    pub fn new(x: Vec<u8>, y: Vec<u8>, z: Vec<u8>) -> (r: Node)
        ensures
            r@ == (NodeV { x: x@, y: y@, z: z@ }),
    {
        Node { x, y, z }
    }
}

} // verus!
