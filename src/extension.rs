pub mod mirror;
pub mod modifiers;
pub mod preview;
pub mod rotate;
pub mod scale;
pub mod special_vars;
pub mod translate;
