pub mod extrude;
pub mod set;
pub mod three_d;
pub mod transform;
pub mod two_d;
