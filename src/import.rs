//! Shapes read from files.
use vstd::prelude::*;
use crate::object::{Node, NodeView, Object};

verus! {

/// A flat shape read from an SVG file.
pub fn svg(path: String) -> (r: Object<2>)
    ensures
        r@ == (NodeView::Import { path: path@ }),
{
    Object::new(Node::Import(path))
}

/// A solid read from an STL file.
pub fn stl(path: String) -> (r: Object<3>)
    ensures
        r@ == (NodeView::Import { path: path@ }),
{
    Object::new(Node::Import(path))
}

/// A solid read from an AMF file.
pub fn amf(path: String) -> (r: Object<3>)
    ensures
        r@ == (NodeView::Import { path: path@ }),
{
    Object::new(Node::Import(path))
}

} // verus!
