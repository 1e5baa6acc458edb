//! Regular polygons as circles with few fragments.
use vstd::prelude::*;
use crate::primitive::two_d::{circle, Circle};
use crate::types::{FragmentResolution, Length, Number};

verus! {

/// A regular pentagon: a circle of five fragments.
pub fn pentagon(radius: Length) -> (r: Circle)
    ensures
        r == (Circle {
            fragment_angle: None,
            fragment_resolution: Some(FragmentResolution(Number::from_int_spec(5))),
            fragment_size: None,
            radius: Some(radius),
        }),
{
    circle(radius).fragment_resolution(FragmentResolution(Number::from_int(5)))
}

/// A regular hexagon: a circle of six fragments.
pub fn hexagon(radius: Length) -> (r: Circle)
    ensures
        r == (Circle {
            fragment_angle: None,
            fragment_resolution: Some(FragmentResolution(Number::from_int_spec(6))),
            fragment_size: None,
            radius: Some(radius),
        }),
{
    circle(radius).fragment_resolution(FragmentResolution(Number::from_int(6)))
}

/// A regular octagon: a circle of eight fragments.
pub fn octagon(radius: Length) -> (r: Circle)
    ensures
        r == (Circle {
            fragment_angle: None,
            fragment_resolution: Some(FragmentResolution(Number::from_int_spec(8))),
            fragment_size: None,
            radius: Some(radius),
        }),
{
    circle(radius).fragment_resolution(FragmentResolution(Number::from_int(8)))
}

} // verus!
