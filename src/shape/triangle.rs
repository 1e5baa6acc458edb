//! Triangles built from squares.
use vstd::prelude::*;
use crate::extension::rotate::{rotate_z, RotateZ};
use crate::extension::translate::{back, left, Back, Left};
use crate::ext::boolean_tree;
use crate::object::{wrapped_tree, IntoObject, NodeView, Object};
use crate::primitive::set::Difference;
use crate::primitive::transform::{mirror, Mirror};
use crate::primitive::two_d::{square, Square};
use crate::types::{Angle, Length, Length2, Length3, Number};

verus! {

/// Half of a number.
pub open spec fn halved(n: Number) -> Number {
    Number { negative: n.negative, magnitude: (n.magnitude * 5) as u64, places: (n.places + 1) as u8 }
}

/// Twice a number.
pub open spec fn doubled(n: Number) -> Number {
    Number { magnitude: (n.magnitude * 2) as u64, ..n }
}

/// The whole-number vector `[x, y, z]`.
pub open spec fn int_vector(x: i64, y: i64, z: i64) -> Length3 {
    Length3([Length(Number::from_int_spec(x)), Length(Number::from_int_spec(y)), Length(Number::from_int_spec(z))])
}

/// A number small enough to halve and double, with few enough places to
/// compare.
pub open spec fn fits(n: Number) -> bool {
    n.magnitude <= u64::MAX / 10 && n.places <= 18
}

/// The tree of [`right`].
pub open spec fn right_tree(width: Length, height: Length, angle: Angle, larger: Number) -> NodeView {
    let s = (Square { center: None, size: Some(Length2([width, height])) }).spec_node();
    let m = Length(doubled(larger));
    let mask = wrapped_tree((RotateZ::<2> { angle: Some(angle) }).spec_node(), (Square { center: None, size: Some(Length2([m, m])) }).spec_node());
    let tri = boolean_tree((Difference::<2> {}).spec_node(), s, mask);
    let moved = wrapped_tree(
        (Left::<2> { x: Some(Length(halved(width.0))) }).spec_node(),
        wrapped_tree((Back::<2> { y: Some(Length(halved(height.0))) }).spec_node(), tri),
    );
    wrapped_tree((Mirror::<2> { value: Some(int_vector(1, 0, 0)) }).spec_node(), moved)
}

/// A right triangle with legs `width` and `height`, centred, its right angle
/// at the left: a `width` by `height` rectangle less a square, twice the
/// longer leg, turned by `angle` (the angle of the diagonal, in degrees).
pub fn right(width: Length, height: Length, angle: Angle) -> (r: Object<2>)
    requires
        fits(width.0),
        fits(height.0),
    ensures
        r@ == right_tree(width, height, angle, width.0.larger(height.0)),
{
    let s = square(Length2([width, height]));
    let mask_v = Length(width.0.max(height.0).double());
    let mask = square(Length2([mask_v, mask_v])).into_object().pipe(rotate_z::<2>(angle));
    let tri = s.into_object().difference(mask);
    let r = tri
        .pipe(back::<2>(Length(height.0.half())))
        .pipe(left::<2>(Length(width.0.half())))
        .pipe(mirror::<2>(Length3([Length(Number::from_int(1)), Length(Number::from_int(0)), Length(Number::from_int(0))])));
    r
}

} // verus!
