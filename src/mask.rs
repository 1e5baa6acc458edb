//! Masks for rounding and chamfering edges.
pub mod face;

use vstd::prelude::*;
use crate::ext::boolean_tree;
use crate::extension::preview::{in_preview, InPreview};
use crate::extension::rotate::{rotate_z, RotateZ};
use crate::extension::translate::{back, fwd, left, right, Back, Fwd, Left, Right};
use crate::object::{wrapped_tree, IntoObject, NodeView, Object};
use crate::primitive::extrude::{linear_extrude, LinearExtrude};
use crate::primitive::set::{Difference, Union};
use crate::primitive::two_d::{circle, square, Circle, Square};
use crate::shape::triangle::{fits, halved, right_tree};
use crate::types::{Angle, Length, Length2, Number};

verus! {

/// The padding width, `0.01`.
pub open spec fn padding_width() -> Length {
    Length(Number { negative: false, magnitude: 1, places: 2 })
}

/// The tree of the padding that covers seams in preview: two thin bars
/// along the bottom and the right edge of a `width` by `height` mask.
pub open spec fn padding_tree(width: Length, height: Length) -> NodeView {
    let p = padding_width();
    let u = wrapped_tree(
        (Fwd::<2> { y: Some(Length(halved(height.0))) }).spec_node(),
        (Square { center: Some(true), size: Some(Length2([width, p])) }).spec_node(),
    );
    let o = wrapped_tree(
        (Right::<2> { x: Some(Length(halved(width.0))) }).spec_node(),
        (Square { center: Some(true), size: Some(Length2([p, height])) }).spec_node(),
    );
    wrapped_tree((InPreview::<2> {}).spec_node(), boolean_tree((Union::<2> {}).spec_node(), u, o))
}

fn preview_padding(width: Length, height: Length) -> (r: Object<2>)
    requires
        fits(width.0),
        fits(height.0),
    ensures
        r@ == padding_tree(width, height),
{
    let padding = Length(Number { negative: false, magnitude: 1, places: 2 });
    let u = square(Length2([width, padding])).center(true).into_object().pipe(fwd::<2>(Length(height.0.half())));
    let o = square(Length2([padding, height])).center(true).into_object().pipe(right::<2>(Length(width.0.half())));
    u.union(o).pipe(in_preview::<2>())
}

/// `t` moved back by half of `h`, then left by half of `w`.
pub open spec fn recentred(w: Length, h: Length, t: NodeView) -> NodeView {
    wrapped_tree(
        (Left::<2> { x: Some(Length(halved(w.0))) }).spec_node(),
        wrapped_tree((Back::<2> { y: Some(Length(halved(h.0))) }).spec_node(), t),
    )
}

/// The tree of [`fillet`].
pub open spec fn fillet_tree(rounding: Length) -> NodeView {
    let c = recentred(
        rounding,
        rounding,
        (Circle { fragment_angle: None, fragment_resolution: None, fragment_size: None, radius: Some(rounding) }).spec_node(),
    );
    let s = (Square { center: Some(true), size: Some(Length2([rounding, rounding])) }).spec_node();
    let body = boolean_tree(
        (Union::<2> {}).spec_node(),
        boolean_tree((Difference::<2> {}).spec_node(), s, c),
        padding_tree(rounding, rounding),
    );
    recentred(rounding, rounding, body)
}

/// A mask that rounds an edge with radius `rounding`: a square less a circle
/// at its corner.
pub fn fillet(rounding: Length) -> (r: Object<2>)
    requires
        fits(rounding.0),
    ensures
        r@ == fillet_tree(rounding),
{
    let h = Length(rounding.0.half());
    let c = circle(rounding).into_object().pipe(back::<2>(h)).pipe(left::<2>(h));
    let s = square(Length2([rounding, rounding])).center(true);
    let padding = preview_padding(rounding, rounding);
    s.into_object().difference(c).union(padding).pipe(back::<2>(h)).pipe(left::<2>(h))
}

/// The tree of [`chamfer`].
pub open spec fn chamfer_tree(width: Length, height: Length, angle: Angle) -> NodeView {
    let tri = wrapped_tree(
        (RotateZ::<2> { angle: Some(Angle(Number::from_int_spec(180))) }).spec_node(),
        right_tree(width, height, angle, width.0.larger(height.0)),
    );
    recentred(width, height, boolean_tree((Union::<2> {}).spec_node(), tri, padding_tree(width, height)))
}

/// A mask that chamfers an edge with legs `width` and `height`; `angle` is
/// the angle of the diagonal, in degrees.
pub fn chamfer(width: Length, height: Length, angle: Angle) -> (r: Object<2>)
    requires
        fits(width.0),
        fits(height.0),
    ensures
        r@ == chamfer_tree(width, height, angle),
{
    let tri = crate::shape::triangle::right(width, height, angle).pipe(rotate_z::<2>(Angle(Number::from_int(180))));
    let padding = preview_padding(width, height);
    tri.union(padding).pipe(back::<2>(Length(height.0.half()))).pipe(left::<2>(Length(width.0.half())))
}

/// The tree of [`edge`].
pub open spec fn edge_tree(length: Length, shape: NodeView) -> NodeView {
    wrapped_tree(
        (LinearExtrude { center: Some(true), convexity: None, height: Some(length), vector: None }).spec_node(),
        shape,
    )
}

/// A mask along an edge: `shape` extruded to `length`, centred.
pub fn edge<S: IntoObject<2>>(length: Length, shape: S) -> (r: Object<3>)
    ensures
        r@ == edge_tree(length, shape.tree()),
{
    shape.into_object().pipe(linear_extrude(length).center(true))
}

} // verus!
