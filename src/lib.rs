pub mod bosl;
pub mod ext;
pub mod extension;
pub mod helpers;
pub mod import;
pub mod laws;
pub mod mask;
pub mod object;
pub mod primitive;
pub mod scad;
pub mod shape;
pub mod text;
pub mod types;
pub mod var;

pub use object::{IntoObject, Object, Operator};
pub use scad::{Assignment, AssignmentType, Formatter, Scad};
