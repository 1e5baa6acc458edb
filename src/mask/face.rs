//! Masks for the edges of whole faces.
use vstd::prelude::*;
use crate::ext::boolean_tree;
use crate::extension::rotate::{rotate_x, RotateX};
use crate::extension::translate::{fwd, right, Fwd, Right};
use crate::mask::{edge, edge_tree};
use crate::object::{wrapped_tree, IntoObject, NodeView, Object};
use crate::primitive::extrude::{rotate_extrude, RotateExtrude};
use crate::primitive::set::Union;
use crate::primitive::transform::{mirror, rotate, Mirror, Rotate};
use crate::shape::triangle::{fits, halved, int_vector};
use crate::types::{Angle, Angle3, Length, Length3, Number};

verus! {

/// A mask around a circular edge of radius `radius`: `shape` moved out by
/// the radius and swept around the Z axis.
pub fn cylinder<S: IntoObject<2>>(radius: Length, shape: S) -> (r: Object<3>)
    ensures
        r@ == wrapped_tree(
            (RotateExtrude {
                angle: None,
                convexity: None,
                fragment_angle: None,
                fragment_resolution: None,
                fragment_size: None,
            }).spec_node(),
            wrapped_tree((Right::<2> { x: Some(radius) }).spec_node(), shape.tree()),
        ),
{
    let shape = shape.into_object().pipe(right::<2>(radius));
    shape.pipe(rotate_extrude())
}

/// The whole-number angles `[x, y, z]`.
pub open spec fn int_angles(x: i64, y: i64, z: i64) -> Angle3 {
    Angle3([Angle(Number::from_int_spec(x)), Angle(Number::from_int_spec(y)), Angle(Number::from_int_spec(z))])
}

/// The tree of [`cube`].
pub open spec fn cube_tree(width: Length, height: Length, shape: NodeView) -> NodeView {
    let a = wrapped_tree((RotateX::<3> { angle: Some(Angle(Number::from_int_spec(90))) }).spec_node(), edge_tree(height, shape));
    let b = wrapped_tree((Rotate::<3> { angle: Some(int_angles(90, 0, 90)), value: None }).spec_node(), edge_tree(width, shape));
    let a1 = wrapped_tree((Right::<3> { x: Some(Length(halved(width.0))) }).spec_node(), a);
    let a2 = wrapped_tree((Mirror::<3> { value: Some(int_vector(1, 0, 0)) }).spec_node(), a1);
    let b1 = wrapped_tree((Fwd::<3> { y: Some(Length(halved(height.0))) }).spec_node(), b);
    let b2 = wrapped_tree((Mirror::<3> { value: Some(int_vector(0, 1, 0)) }).spec_node(), b1);
    let u = (Union::<3> {}).spec_node();
    boolean_tree(u, boolean_tree(u, boolean_tree(u, a1, a2), b1), b2)
}

/// A mask around the four side edges of a `width` by `height` face.
pub fn cube<S: IntoObject<2>>(width: Length, height: Length, shape: S) -> (r: Object<3>)
    requires
        fits(width.0),
        fits(height.0),
    ensures
        r@ == cube_tree(width, height, shape.tree()),
{
    let shape = shape.into_object();
    let a = edge(height, &shape).pipe(rotate_x::<3>(Angle(Number::from_int(90))));
    let angles = Angle3([Angle(Number::from_int(90)), Angle(Number::from_int(0)), Angle(Number::from_int(90))]);
    let b = edge(width, &shape).pipe(rotate::<3>(angles));
    let a1 = a.pipe(right::<3>(Length(width.0.half())));
    let x_axis = Length3([Length(Number::from_int(1)), Length(Number::from_int(0)), Length(Number::from_int(0))]);
    let a2 = a1.clone().pipe(mirror::<3>(x_axis));
    let b1 = b.pipe(fwd::<3>(Length(height.0.half())));
    let y_axis = Length3([Length(Number::from_int(0)), Length(Number::from_int(1)), Length(Number::from_int(0))]);
    let b2 = b1.clone().pipe(mirror::<3>(y_axis));
    a1.union(a2).union(b1).union(b2)
}

} // verus!
